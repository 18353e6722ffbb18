use vstd::prelude::*;

use crate::config::NamingMode;
use crate::digits::{decimal_of, decimal_string, lemma_decimal_of_injective};
use crate::error::DownloadError;
use crate::manifest::Locator;

verus! {

/// The placeholder filename used when a locator has no usable path segment.
pub open spec fn fallback_name() -> Seq<char> {
    "file.download"@
}

/// The fixed extension of numbered output files.
pub open spec fn numbered_ext() -> Seq<char> {
    ".txt.gz"@
}

/// The index just after the last `'/'` of `path`, or zero if it has none:
/// where the final path segment begins.
pub open spec fn cut_after_last_slash(path: Seq<char>) -> int
    decreases path.len(),
{
    if path.len() == 0 {
        0
    } else if path.last() == '/' {
        path.len() as int
    } else {
        cut_after_last_slash(path.drop_last())
    }
}

pub proof fn lemma_cut_after_last_slash_bounds(path: Seq<char>)
    ensures
        0 <= cut_after_last_slash(path) <= path.len(),
    decreases path.len(),
{
    if path.len() > 0 && path.last() != '/' {
        lemma_cut_after_last_slash_bounds(path.drop_last());
    }
}

/// The final path segment: everything after the last `'/'`.
pub open spec fn last_segment(path: Seq<char>) -> Seq<char> {
    path.skip(cut_after_last_slash(path))
}

/// The local name a locator's path resolves to, relative to the destination
/// root. `FullPath` mirrors the path hierarchy (leading separator removed),
/// `FilesOnly` flattens to the final segment, `Numbered` names the file after
/// the ordinal alone. A path with no usable content under the first two modes
/// falls back to a placeholder name rather than failing the task.
pub open spec fn resolved_name(path: Seq<char>, ordinal: nat, mode: NamingMode) -> Seq<char> {
    match mode {
        NamingMode::Numbered => decimal_of(ordinal) + numbered_ext(),
        NamingMode::FilesOnly => {
            let seg = last_segment(path);
            if seg.len() > 0 {
                seg
            } else {
                fallback_name()
            }
        },
        NamingMode::FullPath => {
            if path.len() >= 2 && path[0] == '/' {
                path.skip(1)
            } else {
                fallback_name()
            }
        },
    }
}

/// Under `Numbered` mode, distinct ordinals always resolve to distinct
/// names, whatever the locators' paths: the output names are unique and in
/// one-to-one correspondence with manifest order.
pub proof fn lemma_numbered_names_distinct(path1: Seq<char>, path2: Seq<char>, a: nat, b: nat)
    requires
        a != b,
    ensures
        resolved_name(path1, a, NamingMode::Numbered) != resolved_name(
            path2,
            b,
            NamingMode::Numbered,
        ),
{
    let na = resolved_name(path1, a, NamingMode::Numbered);
    let nb = resolved_name(path2, b, NamingMode::Numbered);
    if na == nb {
        assert(na.len() == decimal_of(a).len() + numbered_ext().len());
        assert(nb.len() == decimal_of(b).len() + numbered_ext().len());
        assert(decimal_of(a).len() == decimal_of(b).len());
        assert(na.take(decimal_of(a).len() as int) =~= decimal_of(a));
        assert(nb.take(decimal_of(b).len() as int) =~= decimal_of(b));
        lemma_decimal_of_injective(a, b);
    }
}

/// Finds where the final path segment begins.
fn cut_index(path: &str) -> (r: usize)
    ensures
        r == cut_after_last_slash(path@),
{
    let len = path.unicode_len();
    let mut i: usize = len;
    proof {
        assert(path@.take(len as int) =~= path@);
    }
    while i > 0 && path.get_char(i - 1) != '/'
        invariant
            i <= len == path@.len(),
            cut_after_last_slash(path@) == cut_after_last_slash(path@.take(i as int)),
        decreases i,
    {
        proof {
            assert(path@.take(i as int).last() == path@[i - 1]);
            assert(path@.take(i as int).drop_last() =~= path@.take(i - 1));
        }
        i = i - 1;
    }
    proof {
        if i > 0 {
            assert(path@.take(i as int).last() == path@[i - 1]);
        } else {
            assert(path@.take(0) =~= Seq::<char>::empty());
        }
    }
    i
}

/// Resolves the local name for one locator path, ordinal and naming mode.
pub fn resolve_name(path: &str, ordinal: usize, mode: NamingMode) -> (r: String)
    ensures
        r@ == resolved_name(path@, ordinal as nat, mode),
{
    match mode {
        NamingMode::Numbered => {
            let mut s = decimal_string(ordinal as u64);
            s.append(".txt.gz");
            s
        },
        NamingMode::FilesOnly => {
            let len = path.unicode_len();
            let cut = cut_index(path);
            proof {
                lemma_cut_after_last_slash_bounds(path@);
            }
            if cut < len {
                let seg = path.substring_char(cut, len);
                proof {
                    assert(seg@ =~= last_segment(path@));
                }
                seg.to_owned()
            } else {
                proof {
                    assert(last_segment(path@).len() == 0);
                }
                "file.download".to_owned()
            }
        },
        NamingMode::FullPath => {
            let len = path.unicode_len();
            if len >= 2 && path.get_char(0) == '/' {
                let rest = path.substring_char(1, len);
                proof {
                    assert(rest@ =~= path@.skip(1));
                }
                rest.to_owned()
            } else {
                "file.download".to_owned()
            }
        },
    }
}

/// What `url::Url::parse` followed by `url::Url::path` yields for a URL
/// string that parses: the percent-encoded path component.
pub uninterp spec fn url_path_of(url: Seq<char>) -> Seq<char>;

/// Whether a string parses as an absolute URL.
pub uninterp spec fn url_ok(url: Seq<char>) -> bool;

/// Relies on `url::Url::parse` and `url::Url::path`: whether a string parses
/// as an absolute URL, and the path component of the parsed URL, are
/// functions of the string alone.
#[verifier::external_body]
fn locator_path(url: &str) -> (r: Option<String>)
    ensures
        r is Some <==> url_ok(url@),
        r matches Some(p) ==> p@ == url_path_of(url@),
{
    match url::Url::parse(url) {
        Ok(u) => Some(u.path().to_string()),
        Err(_) => None,
    }
}

/// Everything one task needs before the transfer begins: where to fetch,
/// where the result goes relative to the destination root, and whether
/// intermediate directories must exist first. `Numbered` output is flat by
/// construction, so that mode alone asks for no directory creation.
#[derive(Debug)]
pub struct TaskPlan {
    pub ordinal: usize,
    pub url: String,
    pub dest_name: String,
    pub make_dirs: bool,
}

/// Plans one download from its locator. Succeeds exactly when the locator is
/// a well-formed absolute URL; one that is not fails the download it names
/// and no other. On success the destination name is resolved from the URL's
/// path under the naming mode.
pub fn plan_task(loc: &Locator, mode: NamingMode) -> (r: Result<TaskPlan, DownloadError>)
    ensures
        r is Ok <==> url_ok(loc.url@),
        r matches Ok(p) ==> {
            &&& p.ordinal == loc.index
            &&& p.url@ == loc.url@
            &&& p.dest_name@ == resolved_name(url_path_of(loc.url@), loc.index as nat, mode)
            &&& p.make_dirs <==> !(mode is Numbered)
        },
        r matches Err(e) ==> e is UrlParse,
{
    match locator_path(loc.url.as_str()) {
        Some(path) => {
            let dest_name = resolve_name(path.as_str(), loc.index, mode);
            Ok(
                TaskPlan {
                    ordinal: loc.index,
                    url: loc.url.clone(),
                    dest_name,
                    make_dirs: !matches!(mode, NamingMode::Numbered),
                },
            )
        },
        None => Err(DownloadError::UrlParse(loc.url.clone())),
    }
}

} // verus!
