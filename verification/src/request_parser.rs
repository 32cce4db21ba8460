//! Parses the request line and decides the response: an error status, or a
//! file to look up, and then — once the file system has answered — the
//! success headers or the final error.

use vstd::prelude::*;
use vstd::string::StringSliceAdditionalSpecFns;
use vstd::utf8::encode_utf8;

use crate::byte_scan::{
    contains_dotdot, copy_range, find_line_end, has_dotdot, range_eq, scan_line_end,
    scan_skip_spaces, scan_token_end, skip_spaces, token_end,
};
use crate::content_type::spec_content_type;
use crate::http_status::HttpStatus;
use crate::response::{build_ok_headers, push_bytes, spec_ok_headers};

verus! {

/// What parsing the request line alone decides, before any file system
/// access.
pub enum SpecParseStep {
    Reject { status: HttpStatus },
    Probe { file_path: Seq<u8>, is_head: bool },
}

/// Executable counterpart of [`SpecParseStep`].
pub enum ParseStep {
    Reject(HttpStatus),
    Probe { file_path: Vec<u8>, is_head: bool },
}

pub open spec fn parse_step_matches(r: ParseStep, s: SpecParseStep) -> bool {
    match (r, s) {
        (ParseStep::Reject(st), SpecParseStep::Reject { status }) => st == status,
        (
            ParseStep::Probe { file_path: p1, is_head: h1 },
            SpecParseStep::Probe { file_path: p2, is_head: h2 },
        ) => p1@ == p2 && h1 == h2,
        _ => false,
    }
}

/// The first request line: everything before the first line feed, with a
/// trailing carriage return removed.
pub open spec fn spec_first_line(req: Seq<u8>) -> Seq<u8> {
    let line = req.take(find_line_end(req, 0));
    if line.len() > 0 && line.last() == 13 {
        line.drop_last()
    } else {
        line
    }
}

/// Joining a relative path onto the document root: an absolute path wins, and
/// a separator is inserted only where the root does not already end in one.
pub open spec fn join_path(root: Seq<u8>, rel: Seq<u8>) -> Seq<u8> {
    if rel.len() > 0 && rel[0] == 47 {
        rel
    } else if root.len() == 0 {
        rel
    } else if root[root.len() - 1] == 47 {
        root + rel
    } else {
        root + seq![47u8] + rel
    }
}

/// The request-line decision: reject with 400 when the line has fewer than
/// two tokens, with 403 when the path holds two adjacent dots, with 405 for
/// a method other than GET or HEAD; otherwise name the file to probe, where
/// the bare path `/` stands for `index.html` and the path's first byte is
/// dropped before it is joined onto the document root.
pub open spec fn spec_parse_step(root: Seq<u8>, req: Seq<u8>) -> SpecParseStep {
    let line = spec_first_line(req);
    let m_start = skip_spaces(line, 0);
    let m_end = token_end(line, m_start);
    let p_start = skip_spaces(line, m_end);
    let p_end = token_end(line, p_start);
    if p_start >= line.len() {
        SpecParseStep::Reject { status: HttpStatus::BadRequest }
    } else {
        let method = line.subrange(m_start, m_end);
        let path = line.subrange(p_start, p_end);
        if contains_dotdot(path) {
            SpecParseStep::Reject { status: HttpStatus::Forbidden }
        } else if method != "GET".spec_bytes() && method != "HEAD".spec_bytes() {
            SpecParseStep::Reject { status: HttpStatus::MethodNotAllowed }
        } else {
            let rel = if path == seq![47u8] {
                "index.html".spec_bytes()
            } else {
                path.drop_first()
            };
            SpecParseStep::Probe {
                file_path: join_path(root, rel),
                is_head: method == "HEAD".spec_bytes(),
            }
        }
    }
}

/// Joins `rel` onto the document root as [`join_path`] describes.
pub fn resolve_path(doc_root: &str, rel: &[u8]) -> (r: Vec<u8>)
    ensures
        r@ == join_path(doc_root.spec_bytes(), rel@),
{
    let root: &[u8] = doc_root.as_bytes();
    let mut out: Vec<u8> = Vec::new();
    if rel.len() > 0 && rel[0] == 47 {
        push_bytes(&mut out, rel);
    } else {
        push_bytes(&mut out, root);
        if root.len() > 0 && root[root.len() - 1] != 47 {
            out.push(47);
        }
        push_bytes(&mut out, rel);
    }
    proof {
        assert(out@ =~= join_path(doc_root.spec_bytes(), rel@));
    }
    out
}

/// What the file system reports about a resolved path.
#[derive(Debug, Clone, Copy, PartialEq, Eq, Structural)]
pub enum FileProbe {
    /// Nothing exists at the path.
    Missing,
    /// The path exists but is not a regular file.
    NotRegular,
    /// Metadata could not be read.
    MetadataFailed,
    /// A regular file of the given length.
    Regular { size: u64 },
}

/// The decision once the file system has answered.
pub enum SpecFinishStep {
    Reject { status: HttpStatus },
    Serve { headers: Seq<u8>, file_size: u64, is_head: bool },
}

/// Executable counterpart of [`SpecFinishStep`].
pub enum FinishStep {
    Reject(HttpStatus),
    Serve { headers: Vec<u8>, file_size: u64, is_head: bool },
}

pub open spec fn finish_step_matches(r: FinishStep, s: SpecFinishStep) -> bool {
    match (r, s) {
        (FinishStep::Reject(st), SpecFinishStep::Reject { status }) => st == status,
        (
            FinishStep::Serve { headers: h1, file_size: s1, is_head: i1 },
            SpecFinishStep::Serve { headers: h2, file_size: s2, is_head: i2 },
        ) => h1@ == h2 && s1 == s2 && i1 == i2,
        _ => false,
    }
}

/// The probe decision: a missing path is 404, a non-regular file 403, a
/// metadata failure 500, a file over the size limit 413; everything else is
/// served with the exact success headers for its size and content type.
pub open spec fn spec_finish(path: Seq<u8>, is_head: bool, probe: FileProbe, max: u64) -> SpecFinishStep {
    match probe {
        FileProbe::Missing => SpecFinishStep::Reject { status: HttpStatus::NotFound },
        FileProbe::NotRegular => SpecFinishStep::Reject { status: HttpStatus::Forbidden },
        FileProbe::MetadataFailed => SpecFinishStep::Reject {
            status: HttpStatus::InternalServerError,
        },
        FileProbe::Regular { size } => {
            if size > max {
                SpecFinishStep::Reject { status: HttpStatus::PayloadTooLarge }
            } else {
                SpecFinishStep::Serve {
                    headers: spec_ok_headers(spec_content_type(path), size),
                    file_size: size,
                    is_head,
                }
            }
        },
    }
}

/// Decides responses for one document root and size limit.
#[derive(Clone)]
pub struct RequestParser {
    pub doc_root: String,
    pub max_file_size: u64,
}

impl RequestParser {
    /// The document root as path bytes.
    pub open spec fn spec_root(self) -> Seq<u8> {
        encode_utf8(self.doc_root@)
    }

    pub fn new(doc_root: String, max_file_size: u64) -> (r: RequestParser)
        ensures
            r.doc_root == doc_root,
            r.max_file_size == max_file_size,
    {
        RequestParser { doc_root, max_file_size }
    }

    /// Parses the request-line prefix and names either the error status or
    /// the file to probe.
    pub fn parse_request(&self, request: &Vec<u8>) -> (r: ParseStep)
        ensures
            parse_step_matches(r, spec_parse_step(self.spec_root(), request@)),
    {
        let ghost req = request@;
        let data: &[u8] = request.as_slice();
        let lf = scan_line_end(data);
        let line_len: usize = if lf > 0 && data[lf - 1] == 13 {
            lf - 1
        } else {
            lf
        };
        proof {
            assert(req.take(lf as int) =~= req.subrange(0, lf as int));
            if lf > 0 && req[lf - 1] == 13 {
                assert(spec_first_line(req) =~= req.subrange(0, line_len as int));
            } else {
                assert(spec_first_line(req) =~= req.subrange(0, line_len as int));
            }
        }
        let line_vec = copy_range(data, 0, line_len);
        let ghost line = spec_first_line(req);
        proof {
            assert(line_vec@ == line);
        }
        let lslice: &[u8] = line_vec.as_slice();
        let m_start = scan_skip_spaces(lslice, 0);
        let m_end = scan_token_end(lslice, m_start);
        let p_start = scan_skip_spaces(lslice, m_end);
        let p_end = scan_token_end(lslice, p_start);
        if p_start >= line_vec.len() {
            return ParseStep::Reject(HttpStatus::BadRequest);
        }
        if has_dotdot(lslice, p_start, p_end) {
            return ParseStep::Reject(HttpStatus::Forbidden);
        }
        let is_get = range_eq(lslice, m_start, m_end, "GET".as_bytes());
        let is_head = range_eq(lslice, m_start, m_end, "HEAD".as_bytes());
        if !is_get && !is_head {
            return ParseStep::Reject(HttpStatus::MethodNotAllowed);
        }
        let ghost path = line.subrange(p_start as int, p_end as int);
        let path_is_root = p_end - p_start == 1 && line_vec[p_start] == 47;
        proof {
            if path_is_root {
                assert(path =~= seq![47u8]);
            } else {
                assert(path != seq![47u8]) by {
                    if path == seq![47u8] {
                        assert(path.len() == 1);
                        assert(path[0] == 47);
                        assert(line[p_start as int] == 47);
                    }
                }
            }
        }
        let rel: Vec<u8> = if path_is_root {
            let idx: &[u8] = "index.html".as_bytes();
            let r = copy_range(idx, 0, idx.len());
            proof {
                assert(r@ =~= "index.html".spec_bytes());
            }
            r
        } else {
            let r = copy_range(lslice, p_start + 1, p_end);
            proof {
                assert(r@ =~= path.drop_first());
            }
            r
        };
        let file_path = resolve_path(self.doc_root.as_str(), rel.as_slice());
        ParseStep::Probe { file_path, is_head }
    }

    /// Finishes the decision for a probed path.
    pub fn finish(&self, file_path: &Vec<u8>, is_head: bool, probe: FileProbe) -> (r: FinishStep)
        ensures
            finish_step_matches(r, spec_finish(file_path@, is_head, probe, self.max_file_size)),
    {
        match probe {
            FileProbe::Missing => FinishStep::Reject(HttpStatus::NotFound),
            FileProbe::NotRegular => FinishStep::Reject(HttpStatus::Forbidden),
            FileProbe::MetadataFailed => FinishStep::Reject(HttpStatus::InternalServerError),
            FileProbe::Regular { size } => {
                if size > self.max_file_size {
                    FinishStep::Reject(HttpStatus::PayloadTooLarge)
                } else {
                    let content_type = crate::content_type::get_content_type(file_path);
                    let headers = build_ok_headers(content_type, size);
                    FinishStep::Serve { headers, file_size: size, is_head }
                }
            },
        }
    }

    /// Content type of the file at `file_path`, by case-insensitive extension
    /// lookup.
    pub fn get_content_type(&self, file_path: &Vec<u8>) -> (r: &'static str)
        ensures
            r@ == spec_content_type(file_path@),
    {
        crate::content_type::get_content_type(file_path)
    }
}

/// A HEAD request for a path is answered with exactly the headers and status
/// of the corresponding GET; only the body is withheld.
pub proof fn lemma_head_matches_get(path: Seq<u8>, probe: FileProbe, max: u64)
    ensures
        match (spec_finish(path, false, probe, max), spec_finish(path, true, probe, max)) {
            (
                SpecFinishStep::Serve { headers: hg, file_size: sg, is_head: ig },
                SpecFinishStep::Serve { headers: hh, file_size: sh, is_head: ih },
            ) => hg == hh && sg == sh && !ig && ih,
            (
                SpecFinishStep::Reject { status: a },
                SpecFinishStep::Reject { status: b },
            ) => a == b,
            _ => false,
        },
{
}

/// A regular file of at most the size limit is served, with headers that
/// carry its exact length and its extension's content type; one over the
/// limit is rejected as payload-too-large.
pub proof fn lemma_size_limit_boundary(path: Seq<u8>, is_head: bool, size: u64, max: u64)
    ensures
        size <= max ==> spec_finish(path, is_head, FileProbe::Regular { size }, max)
            == (SpecFinishStep::Serve {
            headers: spec_ok_headers(spec_content_type(path), size),
            file_size: size,
            is_head,
        }),
        size > max ==> spec_finish(path, is_head, FileProbe::Regular { size }, max)
            == (SpecFinishStep::Reject { status: HttpStatus::PayloadTooLarge }),
{
}

/// A request whose target path holds two adjacent dots is rejected as
/// forbidden, whatever its method and whatever follows.
pub proof fn lemma_dotdot_rejected(root: Seq<u8>, req: Seq<u8>)
    ensures
        ({
            let line = spec_first_line(req);
            let m_end = token_end(line, skip_spaces(line, 0));
            let p_start = skip_spaces(line, m_end);
            let p_end = token_end(line, p_start);
            p_start < line.len() && contains_dotdot(line.subrange(p_start, p_end))
                ==> spec_parse_step(root, req) == (SpecParseStep::Reject {
                status: HttpStatus::Forbidden,
            })
        }),
{
}

} // verus!
