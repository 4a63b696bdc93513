//! Installer download from SourceForge. Its download page no longer serves
//! the binary directly but a page whose `<meta http-equiv="refresh">` tag
//! carries a one-time signed mirror URL; this module finds that URL, checks
//! that what was downloaded is an executable, and builds the elevated
//! launch command.

use vstd::prelude::*;
use crate::text::{
    chars_of, find_chars, find_from, find_from_spec, replace_all, replace_range,
};

verus! {

/// The marker of the refresh tag in the download page.
pub const META_REFRESH: &'static str = "meta http-equiv=\"refresh\"";

/// The attribute prefix of the URL inside the refresh tag.
pub const URL_PREFIX: &'static str = "url=";

/// Why no mirror URL could be taken from the download page.
#[derive(Debug, Clone, Copy, PartialEq, Eq, Structural)]
pub enum MirrorUrlError {
    /// The page has no refresh tag.
    NoMetaRefresh,
    /// The refresh tag has no `url=`.
    NoUrl,
    /// The URL is not closed by a quote.
    MalformedUrl,
}

impl MirrorUrlError {
    pub fn message(&self) -> (m: String)
        ensures
            m@ == match *self {
                MirrorUrlError::NoMetaRefresh => "SourceForge page format changed (no meta refresh)"@,
                MirrorUrlError::NoUrl => "No url= in meta refresh"@,
                MirrorUrlError::MalformedUrl => "Malformed meta-refresh URL"@,
            },
    {
        match self {
            MirrorUrlError::NoMetaRefresh => String::from_str(
                "SourceForge page format changed (no meta refresh)",
            ),
            MirrorUrlError::NoUrl => String::from_str("No url= in meta refresh"),
            MirrorUrlError::MalformedUrl => String::from_str("Malformed meta-refresh URL"),
        }
    }
}

/// Why the installer could not be fetched.
#[derive(Debug, Clone, Copy, PartialEq, Eq, Structural)]
pub enum DownloadError {
    /// The download page could not be fetched.
    PageUnreachable,
    /// The download from the mirror failed.
    DownloadFailed,
    /// What was downloaded is not a Windows executable.
    NotExecutable,
}

impl DownloadError {
    pub fn message(&self) -> (m: String)
        ensures
            m@ == match *self {
                DownloadError::PageUnreachable => "Could not reach SourceForge to fetch the installer page."@,
                DownloadError::DownloadFailed => "Installer download failed \u{2014} try again in a moment."@,
                DownloadError::NotExecutable => "Downloaded file is not an executable; SourceForge may have changed its page format."@,
            },
    {
        match self {
            DownloadError::PageUnreachable => String::from_str(
                "Could not reach SourceForge to fetch the installer page.",
            ),
            DownloadError::DownloadFailed => String::from_str(
                "Installer download failed \u{2014} try again in a moment.",
            ),
            DownloadError::NotExecutable => String::from_str(
                "Downloaded file is not an executable; SourceForge may have changed its page format.",
            ),
        }
    }
}

/// The mirror URL of a download page: in the text between the first refresh
/// marker and the next one (or the end), the characters after the first
/// `url=` up to the next `"`, with `&amp;` decoded to `&`.
pub open spec fn mirror_url(html: Seq<char>) -> Result<Seq<char>, MirrorUrlError> {
    let marker = META_REFRESH@;
    match find_from(html, marker, 0) {
        None => Err(MirrorUrlError::NoMetaRefresh),
        Some(p) => {
            let a = p + marker.len();
            let b = match find_from(html, marker, a) {
                Some(q) => q,
                None => html.len() as int,
            };
            let after = html.subrange(a, b);
            match find_from(after, URL_PREFIX@, 0) {
                None => Err(MirrorUrlError::NoUrl),
                Some(u) => {
                    let rest = after.skip(u + URL_PREFIX@.len());
                    match find_from(rest, seq!['"'], 0) {
                        None => Err(MirrorUrlError::MalformedUrl),
                        Some(e) => Ok(replace_all(rest.take(e), "&amp;"@, seq!['&'])),
                    }
                },
            }
        },
    }
}

fn copy_range(v: &Vec<char>, a: usize, b: usize) -> (r: Vec<char>)
    requires
        a <= b <= v@.len(),
    ensures
        r@ == v@.subrange(a as int, b as int),
{
    let mut r: Vec<char> = Vec::new();
    let mut i = a;
    while i < b
        invariant
            a <= i <= b <= v@.len(),
            r@ =~= v@.subrange(a as int, i as int),
        decreases b - i,
    {
        r.push(v[i]);
        i += 1;
    }
    r
}

/// Takes the mirror URL out of a SourceForge download page.
pub fn extract_mirror_url(html: &str) -> (r: Result<String, MirrorUrlError>)
    ensures
        match (r, mirror_url(html@)) {
            (Ok(u), Ok(s)) => u@ == s,
            (Err(e), Err(f)) => e == f,
            _ => false,
        },
{
    let h = chars_of(html);
    let hlen = h.len();
    let marker = chars_of(META_REFRESH);
    proof {
        reveal_strlit("meta http-equiv=\"refresh\"");
        reveal_strlit("url=");
        reveal_strlit("&amp;");
    }
    let p = match find_chars(&h, &marker, 0) {
        Some(p) => p,
        None => return Err(MirrorUrlError::NoMetaRefresh),
    };
    proof {
        find_from_spec(h@, marker@, 0);
    }
    let a = p + marker.len();
    let b = match find_chars(&h, &marker, a) {
        Some(q) => q,
        None => hlen,
    };
    proof {
        find_from_spec(h@, marker@, a as int);
    }
    let after = copy_range(&h, a, b);
    let prefix = chars_of(URL_PREFIX);
    let u = match find_chars(&after, &prefix, 0) {
        Some(u) => u,
        None => return Err(MirrorUrlError::NoUrl),
    };
    proof {
        find_from_spec(after@, prefix@, 0);
    }
    let rest = copy_range(&after, u + prefix.len(), after.len());
    assert(rest@ =~= after@.skip(u + prefix@.len()));
    let quote = chars_of("\"");
    proof {
        reveal_strlit("\"");
    }
    assert(quote@ =~= seq!['"']);
    let e = match find_chars(&rest, &quote, 0) {
        Some(e) => e,
        None => return Err(MirrorUrlError::MalformedUrl),
    };
    proof {
        find_from_spec(rest@, quote@, 0);
    }
    let from = chars_of("&amp;");
    let to = chars_of("&");
    proof {
        reveal_strlit("&");
    }
    assert(to@ =~= seq!['&']);
    assert(rest@.subrange(0, e as int) =~= rest@.take(e as int));
    Ok(replace_range(&rest, 0, e, &from, &to))
}

/// The download page of a SourceForge project's latest file.
pub fn page_url(project_slug: &str) -> (u: String)
    ensures
        u@ == "https://sourceforge.net/projects/"@ + project_slug@ + "/files/latest/download"@,
{
    let mut u = String::from_str("https://sourceforge.net/projects/");
    u.append(project_slug);
    u.append("/files/latest/download");
    u
}

/// Whether a downloaded file starts like a Windows executable (`MZ`).
pub fn is_executable_image(head: &[u8]) -> (r: bool)
    ensures
        r == (head@.len() >= 2 && head@[0] == 0x4D && head@[1] == 0x5A),
{
    head.len() >= 2 && head[0] == 0x4D && head[1] == 0x5A
}

/// The check on the downloaded file: it must start like a Windows
/// executable.
pub fn check_installer_image(head: &[u8]) -> (r: Result<(), DownloadError>)
    ensures
        r == (if head@.len() >= 2 && head@[0] == 0x4D && head@[1] == 0x5A {
            Ok::<(), DownloadError>(())
        } else {
            Err(DownloadError::NotExecutable)
        }),
{
    if is_executable_image(head) {
        Ok(())
    } else {
        Err(DownloadError::NotExecutable)
    }
}

/// The PowerShell command that launches the installer elevated (UAC prompt).
pub fn elevated_launch_command(installer_path: &str) -> (c: String)
    ensures
        c@ == "Start-Process -FilePath '"@ + installer_path@ + "' -Verb RunAs"@,
{
    let mut c = String::from_str("Start-Process -FilePath '");
    c.append(installer_path);
    c.append("' -Verb RunAs");
    c
}

} // verus!
