//! The Prometheus metrics page.

use vstd::prelude::*;
use vstd::string::StringExecFns;

use crate::server::stream::{StreamInfo, StreamStatus};
use crate::text::{decimal, decimal_string, push_char};

verus! {

/// A label value with backslashes, line breaks and quotes escaped.
pub open spec fn prometheus_escaped(s: Seq<char>) -> Seq<char>
    decreases s.len(),
{
    if s.len() == 0 {
        seq![]
    } else {
        let c = s.last();
        prometheus_escaped(s.drop_last()) + if c == '\\' {
            seq!['\\', '\\']
        } else if c == '\n' {
            seq!['\\', 'n']
        } else if c == '"' {
            seq!['\\', '"']
        } else {
            seq![c]
        }
    }
}

/// Escapes a label value for the metrics page.
pub fn prometheus_escape(value: &str) -> (r: String)
    ensures
        r@ == prometheus_escaped(value@),
{
    let n = value.unicode_len();
    let mut r = String::new();
    let mut i: usize = 0;
    while i < n
        invariant
            i <= n == value@.len(),
            r@ == prometheus_escaped(value@.subrange(0, i as int)),
        decreases n - i,
    {
        let c = value.get_char(i);
        proof {
            let t = value@.subrange(0, i + 1);
            assert(t.drop_last() =~= value@.subrange(0, i as int));
            assert(t.last() == c);
        }
        if c == '\\' || c == '\n' || c == '"' {
            push_char(&mut r, '\\');
            push_char(&mut r, if c == '\n' { 'n' } else { c });
        } else {
            push_char(&mut r, c);
        }
        proof {
            assert(r@ =~= prometheus_escaped(value@.subrange(0, i + 1)));
        }
        i = i + 1;
    }
    proof {
        assert(value@.subrange(0, n as int) =~= value@);
    }
    r
}

/// The viewers of all streams, added up.
pub open spec fn viewers_of(ss: Seq<StreamInfo>) -> int
    decreases ss.len(),
{
    if ss.len() == 0 {
        0
    } else {
        viewers_of(ss.drop_last()) + ss.last().viewers
    }
}

/// The two lines of one stream: whether it is live, and its bitrate.
pub open spec fn stream_lines(s: StreamInfo) -> Seq<char> {
    "reestream_stream_status{id=\""@ + prometheus_escaped(s.id@) + "\",name=\""@ + prometheus_escaped(s.name@)
        + "\"} "@ + (if s.status == StreamStatus::Live {
        "1"@
    } else {
        "0"@
    }) + "\n"@ + "reestream_stream_bitrate_kbps{id=\""@ + prometheus_escaped(s.id@) + "\"} "@ + decimal(
        s.bitrate as nat,
    ) + "\n"@
}

/// The lines of every stream, in order.
pub open spec fn all_stream_lines(ss: Seq<StreamInfo>) -> Seq<char>
    decreases ss.len(),
{
    if ss.len() == 0 {
        seq![]
    } else {
        all_stream_lines(ss.drop_last()) + stream_lines(ss.last())
    }
}

/// The metrics page: uptime, the number of streams, the viewers in total,
/// then each stream.
pub open spec fn metrics_page(ss: Seq<StreamInfo>, uptime: u64) -> Seq<char> {
    "# HELP reestream_uptime_seconds Server uptime\n"@ + "# TYPE reestream_uptime_seconds gauge\n"@
        + "reestream_uptime_seconds "@ + decimal(uptime as nat) + "\n"@
        + "# HELP reestream_streams_total Number of streams\n"@ + "# TYPE reestream_streams_total gauge\n"@
        + "reestream_streams_total "@ + decimal(ss.len()) + "\n"@ + "# HELP reestream_viewers_total Total viewers\n"@
        + "# TYPE reestream_viewers_total gauge\n"@ + "reestream_viewers_total "@ + decimal(viewers_of(ss) as nat)
        + "\n"@ + all_stream_lines(ss)
}

proof fn lemma_viewers_grow(ss: Seq<StreamInfo>, i: int)
    requires
        0 <= i <= ss.len(),
    ensures
        0 <= viewers_of(ss.subrange(0, i)) <= viewers_of(ss),
    decreases ss.len() - i,
{
    if i < ss.len() {
        lemma_viewers_grow(ss, i + 1);
        assert(ss.subrange(0, i + 1).drop_last() =~= ss.subrange(0, i));
        lemma_viewers_nonneg(ss.subrange(0, i));
    } else {
        assert(ss.subrange(0, i) =~= ss);
        lemma_viewers_nonneg(ss);
    }
}

proof fn lemma_viewers_nonneg(ss: Seq<StreamInfo>)
    ensures
        viewers_of(ss) >= 0,
    decreases ss.len(),
{
    if ss.len() > 0 {
        lemma_viewers_nonneg(ss.drop_last());
    }
}

fn stream_lines_of(s: &StreamInfo) -> (r: String)
    ensures
        r@ == stream_lines(*s),
{
    let id = prometheus_escape(s.id.as_str());
    let name = prometheus_escape(s.name.as_str());
    let bitrate = decimal_string(s.bitrate);
    let live = match s.status {
        StreamStatus::Live => true,
        _ => false,
    };
    let mut r = String::new();
    r.append("reestream_stream_status{id=\"");
    r.append(id.as_str());
    r.append("\",name=\"");
    r.append(name.as_str());
    r.append("\"} ");
    r.append(if live { "1" } else { "0" });
    r.append("\n");
    r.append("reestream_stream_bitrate_kbps{id=\"");
    r.append(id.as_str());
    r.append("\"} ");
    r.append(bitrate.as_str());
    r.append("\n");
    proof {
        assert(r@ =~= stream_lines(*s));
    }
    r
}

/// Writes the metrics page for `streams` after `uptime` seconds. The
/// viewers are added up in 32 bits, so their total must fit.
pub fn render_metrics(streams: &Vec<StreamInfo>, uptime: u64) -> (page: String)
    requires
        viewers_of(streams@) <= u32::MAX,
    ensures
        page@ == metrics_page(streams@, uptime),
{
    let n = streams.len();
    let mut total: u32 = 0;
    let mut lines = String::new();
    for i in 0..n
        invariant
            n == streams@.len(),
            viewers_of(streams@) <= u32::MAX,
            total == viewers_of(streams@.subrange(0, i as int)),
            lines@ == all_stream_lines(streams@.subrange(0, i as int)),
    {
        proof {
            let t = streams@.subrange(0, i + 1);
            assert(t.drop_last() =~= streams@.subrange(0, i as int));
            assert(t.last() == streams@[i as int]);
            lemma_viewers_grow(streams@, i + 1);
        }
        total = total + streams[i].viewers;
        let l = stream_lines_of(&streams[i]);
        lines.append(l.as_str());
    }
    proof {
        assert(streams@.subrange(0, n as int) =~= streams@);
    }
    let up = decimal_string(uptime);
    let count = decimal_string(n as u64);
    let viewers = decimal_string(total as u64);
    let mut page = String::new();
    page.append("# HELP reestream_uptime_seconds Server uptime\n");
    page.append("# TYPE reestream_uptime_seconds gauge\n");
    page.append("reestream_uptime_seconds ");
    page.append(up.as_str());
    page.append("\n");
    page.append("# HELP reestream_streams_total Number of streams\n");
    page.append("# TYPE reestream_streams_total gauge\n");
    page.append("reestream_streams_total ");
    page.append(count.as_str());
    page.append("\n");
    page.append("# HELP reestream_viewers_total Total viewers\n");
    page.append("# TYPE reestream_viewers_total gauge\n");
    page.append("reestream_viewers_total ");
    page.append(viewers.as_str());
    page.append("\n");
    page.append(lines.as_str());
    proof {
        assert(page@ =~= metrics_page(streams@, uptime));
    }
    page
}

} // verus!
