//! WebRTC viewer settings and adaptive-bitrate HLS ladders.

use vstd::prelude::*;
use vstd::string::StringExecFns;

use crate::text::{decimal, decimal_string, join2, owned, push_str};

verus! {

/// A STUN/TURN server offered to viewers.
#[derive(Debug, Clone)]
pub struct IceServer {
    pub urls: Vec<String>,
    pub username: Option<String>,
    pub credential: Option<String>,
}

/// WebRTC playback settings.
#[derive(Debug, Clone)]
pub struct WebRtcConfig {
    pub enabled: bool,
    pub port: u16,
    pub ice_servers: Vec<IceServer>,
    pub max_viewers: u32,
}

impl Default for WebRtcConfig {
    fn default() -> (c: Self)
        ensures
            !c.enabled,
            c.port == 8443,
            c.ice_servers@.len() == 1,
            c.ice_servers@[0].urls.deep_view() == seq!["stun:stun.l.google.com:19302"@],
            c.ice_servers@[0].username.is_none(),
            c.ice_servers@[0].credential.is_none(),
            c.max_viewers == 100,
    {
        let mut urls: Vec<String> = Vec::new();
        push_str(&mut urls, "stun:stun.l.google.com:19302");
        proof {
            assert(urls.deep_view() =~= seq!["stun:stun.l.google.com:19302"@]);
        }
        let mut ice_servers: Vec<IceServer> = Vec::new();
        ice_servers.push(IceServer { urls, username: None, credential: None });
        WebRtcConfig { enabled: false, port: 8443, ice_servers, max_viewers: 100 }
    }
}

/// One rung of an adaptive-bitrate ladder.
#[derive(Debug, Clone)]
pub struct AbrVariant {
    pub name: String,
    pub width: u32,
    pub height: u32,
    pub bitrate_kbps: u32,
    pub fps: u32,
}

/// The FFmpeg arguments that encode one rung as HLS under `output_dir`.
pub open spec fn abr_variant_args(v: AbrVariant, input: Seq<char>, output_dir: Seq<char>) -> Seq<Seq<char>> {
    seq![
        "-i"@,
        input,
        "-c:v"@,
        "libx264"@,
        "-preset"@,
        "veryfast"@,
        "-b:v"@,
        decimal(v.bitrate_kbps as nat) + "k"@,
        "-maxrate"@,
        decimal(v.bitrate_kbps as nat) + "k"@,
        "-bufsize"@,
        decimal(v.bitrate_kbps as nat * 2) + "k"@,
        "-vf"@,
        "scale="@ + decimal(v.width as nat) + "x"@ + decimal(v.height as nat),
        "-r"@,
        decimal(v.fps as nat),
        "-c:a"@,
        "aac"@,
        "-b:a"@,
        "128k"@,
        "-f"@,
        "hls"@,
        "-hls_time"@,
        "6"@,
        "-hls_list_size"@,
        "5"@,
        output_dir + "/"@ + v.name@ + ".m3u8"@,
    ]
}

impl AbrVariant {
    /// A rung with the given name, size, bitrate and frame rate.
    pub fn new(name: &str, width: u32, height: u32, bitrate_kbps: u32, fps: u32) -> (v: Self)
        ensures
            v.name@ == name@,
            v.width == width,
            v.height == height,
            v.bitrate_kbps == bitrate_kbps,
            v.fps == fps,
    {
        AbrVariant { name: owned(name), width, height, bitrate_kbps, fps }
    }

    /// The FFmpeg arguments for this rung. The buffer is twice the bitrate,
    /// so the bitrate must stay below half of `u32::MAX`.
    pub fn to_ffmpeg_args(&self, input: &str, output_dir: &str) -> (args: Vec<String>)
        requires
            self.bitrate_kbps * 2 <= u32::MAX,
        ensures
            args.deep_view() == abr_variant_args(*self, input@, output_dir@),
    {
        let rate = decimal_string(self.bitrate_kbps as u64);
        let rate_k = join2(rate.as_str(), "k");
        let buf = decimal_string((self.bitrate_kbps * 2) as u64);
        let buf_k = join2(buf.as_str(), "k");
        let width = decimal_string(self.width as u64);
        let height = decimal_string(self.height as u64);
        let mut scale = join2("scale=", width.as_str());
        scale.append("x");
        scale.append(height.as_str());
        let fps = decimal_string(self.fps as u64);
        let mut target = join2(output_dir, "/");
        target.append(self.name.as_str());
        target.append(".m3u8");
        let mut args: Vec<String> = Vec::new();
        push_str(&mut args, "-i");
        push_str(&mut args, input);
        push_str(&mut args, "-c:v");
        push_str(&mut args, "libx264");
        push_str(&mut args, "-preset");
        push_str(&mut args, "veryfast");
        push_str(&mut args, "-b:v");
        push_str(&mut args, rate_k.as_str());
        push_str(&mut args, "-maxrate");
        push_str(&mut args, rate_k.as_str());
        push_str(&mut args, "-bufsize");
        push_str(&mut args, buf_k.as_str());
        push_str(&mut args, "-vf");
        push_str(&mut args, scale.as_str());
        push_str(&mut args, "-r");
        push_str(&mut args, fps.as_str());
        push_str(&mut args, "-c:a");
        push_str(&mut args, "aac");
        push_str(&mut args, "-b:a");
        push_str(&mut args, "128k");
        push_str(&mut args, "-f");
        push_str(&mut args, "hls");
        push_str(&mut args, "-hls_time");
        push_str(&mut args, "6");
        push_str(&mut args, "-hls_list_size");
        push_str(&mut args, "5");
        push_str(&mut args, target.as_str());
        proof {
            assert(args.deep_view() =~= abr_variant_args(*self, input@, output_dir@));
        }
        args
    }
}

/// Adaptive-bitrate settings.
#[derive(Debug, Clone)]
pub struct AbrConfig {
    pub enabled: bool,
    pub variants: Vec<AbrVariant>,
    pub segment_count: usize,
    pub segment_duration_secs: u32,
}

impl Default for AbrConfig {
    fn default() -> (c: Self)
        ensures
            !c.enabled,
            c.variants@.len() == 4,
            c.variants@[0].name@ == "1080p"@ && c.variants@[0].width == 1920 && c.variants@[0].height == 1080
                && c.variants@[0].bitrate_kbps == 5000 && c.variants@[0].fps == 60,
            c.variants@[1].name@ == "720p"@ && c.variants@[1].width == 1280 && c.variants@[1].height == 720
                && c.variants@[1].bitrate_kbps == 2500 && c.variants@[1].fps == 30,
            c.variants@[2].name@ == "480p"@ && c.variants@[2].width == 854 && c.variants@[2].height == 480
                && c.variants@[2].bitrate_kbps == 1000 && c.variants@[2].fps == 30,
            c.variants@[3].name@ == "360p"@ && c.variants@[3].width == 640 && c.variants@[3].height == 360
                && c.variants@[3].bitrate_kbps == 500 && c.variants@[3].fps == 24,
            c.segment_count == 5,
            c.segment_duration_secs == 6,
    {
        let mut variants: Vec<AbrVariant> = Vec::new();
        variants.push(AbrVariant::new("1080p", 1920, 1080, 5000, 60));
        variants.push(AbrVariant::new("720p", 1280, 720, 2500, 30));
        variants.push(AbrVariant::new("480p", 854, 480, 1000, 30));
        variants.push(AbrVariant::new("360p", 640, 360, 500, 24));
        AbrConfig { enabled: false, variants, segment_count: 5, segment_duration_secs: 6 }
    }
}

/// The master playlist entry of one rung.
pub open spec fn master_entry(v: AbrVariant, base_url: Seq<char>) -> Seq<char> {
    "#EXT-X-STREAM-INF:BANDWIDTH="@ + decimal(v.bitrate_kbps as nat * 1000) + ",RESOLUTION="@
        + decimal(v.width as nat) + "x"@ + decimal(v.height as nat) + ",NAME=\""@ + v.name@ + "\"\n"@
        + base_url + "/"@ + v.name@ + ".m3u8\n"@
}

/// The entries of a ladder, one after another.
pub open spec fn master_entries(vs: Seq<AbrVariant>, base_url: Seq<char>) -> Seq<char>
    decreases vs.len(),
{
    if vs.len() == 0 {
        seq![]
    } else {
        master_entries(vs.drop_last(), base_url) + master_entry(vs.last(), base_url)
    }
}

/// The master playlist of a ladder.
pub open spec fn master_playlist(vs: Seq<AbrVariant>, base_url: Seq<char>) -> Seq<char> {
    "#EXTM3U\n#EXT-X-VERSION:3\n"@ + master_entries(vs, base_url)
}

fn write_master_entry(v: &AbrVariant, base_url: &str) -> (entry: String)
    requires
        v.bitrate_kbps * 1000 <= u32::MAX,
    ensures
        entry@ == master_entry(*v, base_url@),
{
    let bw = decimal_string((v.bitrate_kbps * 1000) as u64);
    let w = decimal_string(v.width as u64);
    let h = decimal_string(v.height as u64);
    let mut entry = owned("#EXT-X-STREAM-INF:BANDWIDTH=");
    entry.append(bw.as_str());
    entry.append(",RESOLUTION=");
    entry.append(w.as_str());
    entry.append("x");
    entry.append(h.as_str());
    entry.append(",NAME=\"");
    entry.append(v.name.as_str());
    entry.append("\"\n");
    entry.append(base_url);
    entry.append("/");
    entry.append(v.name.as_str());
    entry.append(".m3u8\n");
    entry
}

/// Writes the HLS master playlist that lists every rung under `base_url`.
/// Bandwidths are in bits per second, so every bitrate must stay below
/// `u32::MAX / 1000` kbit/s.
pub fn generate_master_playlist(variants: &[AbrVariant], base_url: &str) -> (playlist: String)
    requires
        forall|i: int| 0 <= i < variants@.len() ==> (#[trigger] variants@[i]).bitrate_kbps * 1000 <= u32::MAX,
    ensures
        playlist@ == master_playlist(variants@, base_url@),
{
    let mut playlist = owned("#EXTM3U\n#EXT-X-VERSION:3\n");
    let n = variants.len();
    for i in 0..n
        invariant
            n == variants@.len(),
            forall|i: int| 0 <= i < variants@.len() ==> (#[trigger] variants@[i]).bitrate_kbps * 1000 <= u32::MAX,
            playlist@ == master_playlist(variants@.subrange(0, i as int), base_url@),
    {
        let v = &variants[i];
        assert(variants@[i as int].bitrate_kbps * 1000 <= u32::MAX);
        let entry = write_master_entry(v, base_url);
        playlist.append(entry.as_str());
        proof {
            let s = variants@.subrange(0, i + 1);
            assert(s.drop_last() =~= variants@.subrange(0, i as int));
            assert(s.last() == variants@[i as int]);
            assert(playlist@ =~= master_playlist(s, base_url@));
        }
    }
    proof {
        assert(variants@.subrange(0, n as int) =~= variants@);
    }
    playlist
}

} // verus!
