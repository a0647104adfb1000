//! Receiving files: the size limit, an upload as its parts arrive, and the
//! checks on file records made without an upload.

use vstd::prelude::*;

use crate::parse::{find_char, parse_unsigned, parse_unsigned_chars, trim_chars, trimmed};
use crate::server::api_v1::{ApiError, bad_request, download_name, is_bad_request, required, safe_download_filename};
use crate::text::{chars_of, decimal, decimal_string, join3, owned, string_of};

verus! {

/// The default upload limit: 2 GiB.
pub const DEFAULT_UPLOAD_LIMIT: u64 = 2147483648;

/// The upload limit a setting gives: a positive number of bytes, else the
/// default.
pub open spec fn upload_limit_of(setting: Option<Seq<char>>) -> u64 {
    match setting {
        Some(s) => match parse_unsigned(s, u64::MAX as int) {
            Some(n) if n > 0 => n as u64,
            _ => DEFAULT_UPLOAD_LIMIT,
        },
        None => DEFAULT_UPLOAD_LIMIT,
    }
}

/// The upload limit a setting gives.
pub fn upload_limit(setting: Option<&str>) -> (r: u64)
    ensures
        r == upload_limit_of(
            match setting {
                Some(s) => Some(s@),
                None => None,
            },
        ),
{
    match setting {
        Some(s) => {
            let c = chars_of(s);
            match parse_unsigned_chars(&c, u64::MAX) {
                Some(n) => if n > 0 {
                    n
                } else {
                    DEFAULT_UPLOAD_LIMIT
                },
                None => DEFAULT_UPLOAD_LIMIT,
            }
        },
        None => DEFAULT_UPLOAD_LIMIT,
    }
}

/// Whether `e` is the reply to a file over the limit.
pub open spec fn is_too_large(e: ApiError, limit: u64) -> bool {
    e.status == 413 && e.code@ == "upload_too_large"@ && e.message@ == "file exceeds the "@ + decimal(limit as nat)
        + " byte upload limit"@
}

fn too_large(limit: u64) -> (e: ApiError)
    ensures
        is_too_large(e, limit),
{
    let n = decimal_string(limit);
    ApiError {
        status: 413,
        code: owned("upload_too_large"),
        message: join3("file exceeds the ", n.as_str(), " byte upload limit"),
    }
}

/// The fields of `s` between the separators, as `str::split` yields them.
pub open spec fn fields(s: Seq<char>, sep: char) -> Seq<Seq<char>>
    decreases s.len(),
{
    let k = find_char(s, sep, 0);
    if k < 0 || k >= s.len() {
        seq![s]
    } else {
        seq![s.subrange(0, k)] + fields(s.subrange(k + 1, s.len() as int), sep)
    }
}

/// The labels the fields give: each trimmed, empty ones dropped.
pub open spec fn kept_labels(fs: Seq<Seq<char>>) -> Seq<Seq<char>>
    decreases fs.len(),
{
    if fs.len() == 0 {
        Seq::empty()
    } else {
        let t = trimmed(fs[0]);
        let rest = kept_labels(fs.subrange(1, fs.len() as int));
        if t.len() > 0 {
            seq![t] + rest
        } else {
            rest
        }
    }
}

/// The labels a comma-separated list gives: each trimmed, empty ones
/// dropped.
pub open spec fn labels_of(s: Seq<char>) -> Seq<Seq<char>> {
    kept_labels(fields(s, ','))
}

/// The labels of a comma-separated list.
pub fn parse_labels(text: &str) -> (r: Vec<String>)
    ensures
        r@.map_values(|l: String| l@) == labels_of(text@),
{
    let mut rest = chars_of(text);
    let mut out: Vec<String> = Vec::new();
    loop
        invariant_except_break
            out@.map_values(|l: String| l@) + labels_of(rest@) == labels_of(text@),
        ensures
            out@.map_values(|l: String| l@) == labels_of(text@),
        decreases rest@.len(),
    {
        let ghost before = rest@;
        let ghost prev = out@.map_values(|l: String| l@);
        match crate::parse::find_char_from(&rest, ',', 0) {
            None => {
                let t = trim_chars(&rest);
                proof {
                    assert(fields(before, ',') == seq![before]);
                    assert(fields(before, ',').subrange(1, 1) =~= Seq::<Seq<char>>::empty());
                    assert(kept_labels(Seq::<Seq<char>>::empty()) == Seq::<Seq<char>>::empty());
                }
                if t.len() > 0 {
                    out.push(string_of(&t));
                    proof {
                        assert(labels_of(before) =~= seq![t@]);
                        assert(out@.map_values(|l: String| l@) =~= prev.push(t@));
                        assert(out@.map_values(|l: String| l@) =~= prev + labels_of(before));
                    }
                } else {
                    proof {
                        assert(labels_of(before) =~= Seq::<Seq<char>>::empty());
                        assert(prev + labels_of(before) =~= prev);
                    }
                }
                break;
            },
            Some(k) => {
                assert(rest@.len() == rest.len());
                let head = crate::parse::slice_chars(&rest, 0, k);
                let tail = crate::parse::slice_chars(&rest, k + 1, rest.len());
                let t = trim_chars(&head);
                proof {
                    let fs = fields(before, ',');
                    assert(fs == seq![head@] + fields(tail@, ','));
                    assert(fs[0] == head@);
                    assert(fs.subrange(1, fs.len() as int) =~= fields(tail@, ','));
                }
                if t.len() > 0 {
                    out.push(string_of(&t));
                    proof {
                        assert(labels_of(before) == seq![t@] + labels_of(tail@));
                        assert(out@.map_values(|l: String| l@) =~= prev.push(t@));
                        assert(out@.map_values(|l: String| l@) + labels_of(tail@) =~= prev + labels_of(before));
                    }
                } else {
                    proof {
                        assert(labels_of(before) == labels_of(tail@));
                    }
                }
                rest = tail;
            },
        }
    }
    out
}

/// An upload as its parts arrive: the name and type given so far, the
/// labels, the bytes received, and whether the file part came.
#[derive(Debug, Clone)]
pub struct Upload {
    pub name: Option<String>,
    pub mime_type: String,
    pub labels: Vec<String>,
    pub total_bytes: u64,
    pub received_file: bool,
}

impl Upload {
    /// Nothing received yet: no name, a generic type, no labels.
    pub fn new() -> (u: Upload)
        ensures
            u.name.is_none(),
            u.mime_type@ == "application/octet-stream"@,
            u.labels@.len() == 0,
            u.total_bytes == 0,
            !u.received_file,
    {
        Upload {
            name: None,
            mime_type: owned("application/octet-stream"),
            labels: Vec::new(),
            total_bytes: 0,
            received_file: false,
        }
    }

    /// The file part begins: only one is taken. It gives the type, and the
    /// name, made safe, unless a name was given before.
    pub fn file_part(&mut self, content_type: Option<String>, file_name: Option<&str>) -> (r: Result<(), ApiError>)
        ensures
            old(self).received_file ==> (r matches Err(e) && is_bad_request(e, "only one file field is supported"@))
                && *final(self) == *old(self),
            !old(self).received_file ==> {
                &&& r is Ok
                &&& final(self).received_file
                &&& final(self).mime_type == match content_type {
                    Some(c) => c,
                    None => old(self).mime_type,
                }
                &&& final(self).name == match old(self).name {
                    Some(n) => Some(n),
                    None => final(self).name,
                }
                &&& old(self).name.is_none() ==> match file_name {
                    Some(f) => final(self).name matches Some(n) && n@ == download_name(f@),
                    None => final(self).name.is_none(),
                }
                &&& final(self).labels == old(self).labels
                &&& final(self).total_bytes == old(self).total_bytes
            },
    {
        if self.received_file {
            return Err(bad_request(owned("only one file field is supported")));
        }
        self.received_file = true;
        if let Some(c) = content_type {
            self.mime_type = c;
        }
        if self.name.is_none() {
            self.name = match file_name {
                Some(f) => Some(safe_download_filename(f)),
                None => None,
            };
        }
        Ok(())
    }

    /// A piece of the file arrives; more than `limit` bytes in all is too
    /// large.
    pub fn file_chunk(&mut self, len: u64, limit: u64) -> (r: Result<(), ApiError>)
        ensures
            final(self).total_bytes == (if old(self).total_bytes + len > u64::MAX {
                u64::MAX as int
            } else {
                old(self).total_bytes + len
            }),
            final(self).name == old(self).name && final(self).mime_type == old(self).mime_type,
            final(self).labels == old(self).labels && final(self).received_file == old(self).received_file,
            final(self).total_bytes > limit ==> (r matches Err(e) && is_too_large(e, limit)),
            final(self).total_bytes <= limit ==> r is Ok,
    {
        self.total_bytes = self.total_bytes.saturating_add(len);
        if self.total_bytes > limit {
            return Err(too_large(limit));
        }
        Ok(())
    }

    /// The name part arrives; it names the file.
    pub fn name_part(&mut self, value: String)
        ensures
            *final(self) == (Upload { name: Some(value), ..*old(self) }),
    {
        self.name = Some(value);
    }

    /// The labels part arrives: a comma-separated list.
    pub fn labels_part(&mut self, value: &str)
        ensures
            final(self).labels@.map_values(|l: String| l@) == labels_of(value@),
            final(self).name == old(self).name && final(self).mime_type == old(self).mime_type,
            final(self).total_bytes == old(self).total_bytes && final(self).received_file == old(self).received_file,
    {
        self.labels = parse_labels(value);
    }

    /// The upload is complete: its name, type, size and labels. A file part
    /// and a name that is not blank are required.
    pub fn finish(self) -> (r: Result<(String, String, u64, Vec<String>), ApiError>)
        ensures
            match self.name {
                Some(n) if trimmed(n@).len() > 0 && self.received_file => r matches Ok((name, mime, size, labels))
                    && name == n && mime == self.mime_type && size == self.total_bytes && labels == self.labels,
                _ => r matches Err(e) && is_bad_request(e, "multipart field `file` is required"@),
            },
    {
        let name = match self.name {
            Some(n) => {
                let c = chars_of(n.as_str());
                if trim_chars(&c).len() == 0 {
                    return Err(bad_request(owned("multipart field `file` is required")));
                }
                n
            },
            None => {
                return Err(bad_request(owned("multipart field `file` is required")));
            },
        };
        if !self.received_file {
            return Err(bad_request(owned("multipart field `file` is required")));
        }
        Ok((name, self.mime_type, self.total_bytes, self.labels))
    }
}

/// The first thing wrong with a file record made without an upload: a
/// name is required, the size must be within the limit, and a path, if
/// given, must lie in the storage root (`path_in_root`).
pub open spec fn metadata_problem(name: Seq<char>, size: Option<u64>, limit: u64, path: Option<Seq<char>>, path_in_root: bool) -> Option<
    (u16, Seq<char>, Seq<char>),
> {
    if trimmed(name).len() == 0 {
        Some((400, "invalid_request"@, "name"@ + " is required"@))
    } else if size matches Some(n) && n > limit {
        Some((413, "upload_too_large"@, "file exceeds the "@ + decimal(limit as nat) + " byte upload limit"@))
    } else if path matches Some(p) && p.len() > 0 && !path_in_root {
        Some((400, "invalid_request"@, "path must point to an existing file inside the storage root"@))
    } else {
        None
    }
}

/// Checks a file record made without an upload; its trimmed name.
pub fn check_storage_metadata(name: &str, size: Option<u64>, limit: u64, path: Option<&str>, path_in_root: bool) -> (r:
    Result<String, ApiError>)
    ensures
        match metadata_problem(
            name@,
            size,
            limit,
            match path {
                Some(p) => Some(p@),
                None => None,
            },
            path_in_root,
        ) {
            Some((status, code, message)) => r matches Err(e) && e.status == status && e.code@ == code && e.message@
                == message,
            None => r matches Ok(n) && n@ == trimmed(name@),
        },
{
    let n = match required(name, "name") {
        Ok(n) => n,
        Err(e) => {
            return Err(e);
        },
    };
    let sz = match size {
        Some(x) => x,
        None => 0,
    };
    if sz > limit {
        return Err(too_large(limit));
    }
    if let Some(p) = path {
        if p.unicode_len() > 0 && !path_in_root {
            return Err(bad_request(owned("path must point to an existing file inside the storage root")));
        }
    }
    Ok(n)
}

} // verus!
