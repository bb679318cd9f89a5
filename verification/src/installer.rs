//! The arguments of the executables installer: the executable, the name to
//! install it under, where updates come from, and a comment.
use vstd::prelude::*;
use crate::cli::{
    is_plain_entry, lists_entry, missing_with, Arg, CliError, Documentation, DocumentationStore, Names, Opt,
    ParsingContext,
};
use std::path::PathBuf;

verus! {

/// A character allowed in an executable name: an ASCII letter or digit, `_` or `-`.
pub open spec fn is_name_char(c: char) -> bool {
    ||| ('0' <= c && c <= '9')
    ||| ('a' <= c && c <= 'z')
    ||| ('A' <= c && c <= 'Z')
    ||| c == '_'
    ||| c == '-'
}

pub open spec fn is_valid_name(s: Seq<char>) -> bool {
    forall|i: int| 0 <= i < s.len() ==> is_name_char(#[trigger] s[i])
}

/// The characters allowed in an executable name are exactly the ASCII
/// letters and digits (as `char::is_ascii_alphanumeric` has them: code
/// points 0x30 to 0x39, 0x41 to 0x5A and 0x61 to 0x7A), `_` and `-`; in
/// particular every upper-case and every lower-case ASCII letter is allowed,
/// and nothing beyond ASCII is.
pub proof fn lemma_name_chars(c: char)
    ensures
        is_name_char(c) <==> {
            ||| (0x30 <= c as u32 && c as u32 <= 0x39)
            ||| (0x41 <= c as u32 && c as u32 <= 0x5a)
            ||| (0x61 <= c as u32 && c as u32 <= 0x7a)
            ||| c as u32 == 0x5f
            ||| c as u32 == 0x2d
        },
        ('A' <= c && c <= 'Z') ==> is_name_char(c),
        (c as u32) >= 0x80 ==> !is_name_char(c),
{
}

/// Whether every character of `name` is allowed in an executable name.
pub fn valid_executable_name(name: &str) -> (r: bool)
    ensures
        r == is_valid_name(name@),
{
    let len = name.unicode_len();
    let mut i: usize = 0;
    while i < len
        invariant
            len == name@.len(),
            i <= len,
            forall|j: int| 0 <= j < i ==> is_name_char(#[trigger] name@[j]),
        decreases len - i,
    {
        let c = name.get_char(i);
        let ok = ('0' <= c && c <= '9') || ('a' <= c && c <= 'z') || ('A' <= c && c <= 'Z') || c
            == '_' || c == '-';
        if !ok {
            return false;
        }
        i += 1;
    }
    true
}

#[verifier::external_type_specification]
#[verifier::external_body]
pub struct ExPathBuf(PathBuf);

/// `Path::exists` on the path spelt by `path`: whether it names something
/// on disk at the time of the call. What is on disk is outside the library,
/// so nothing is stated of the result.
#[verifier::external_body]
fn path_exists(path: &str) -> bool {
    std::path::Path::new(path).exists()
}

/// `Path::is_file` on the path spelt by `path`: whether it names a regular
/// file (symbolic links followed) at the time of the call. Nothing is stated
/// of the result, which depends on the disk.
#[verifier::external_body]
fn path_is_file(path: &str) -> bool {
    std::path::Path::new(path).is_file()
}

/// `Path::canonicalize` on the path spelt by `path`: the absolute path with
/// every link resolved, or `None` where the file system reports an error.
/// Nothing is stated of the result, which depends on the disk.
#[verifier::external_body]
fn canonical_path(path: &str) -> Option<PathBuf> {
    std::path::Path::new(path).canonicalize().ok()
}

/// The message given when the executable does not exist.
pub open spec fn missing_file_message() -> Seq<char> {
    "Executable should exist."@
}

/// The message given when the executable is not a file.
pub open spec fn not_a_file_message() -> Seq<char> {
    "Executable should be file."@
}

/// The message given when the executable's path cannot be resolved.
pub open spec fn unresolved_message() -> Seq<char> {
    "Executable path could not be resolved."@
}

/// The message given when an executable name holds a character not allowed in it.
pub open spec fn invalid_name_message() -> Seq<char> {
    "Name could contain alphanumeric characters as well as '_' and '-'."@
}

/// Whether `r` is the error for an unacceptable argument with message `msg`.
pub open spec fn fails_with<T>(r: Result<T, CliError>, msg: Seq<char>) -> bool {
    match r {
        Err(CliError::Invalid(m)) => m@ == msg,
        _ => false,
    }
}

/// Decides on an executable path from what the file system reported of it:
/// whether it exists, whether it is a file, and its resolved form.
pub fn check_executable(exists: bool, is_file: bool, resolved: Option<PathBuf>) -> (r: Result<
    PathBuf,
    CliError,
>)
    ensures
        !exists ==> fails_with(r, missing_file_message()),
        exists && !is_file ==> fails_with(r, not_a_file_message()),
        exists && is_file ==> match resolved {
            Some(p) => r == Ok::<PathBuf, CliError>(p),
            None => fails_with(r, unresolved_message()),
        },
{
    if !exists {
        proof {
            reveal_strlit("Executable should exist.");
        }
        return Err(CliError::Invalid("Executable should exist."));
    }
    if !is_file {
        proof {
            reveal_strlit("Executable should be file.");
        }
        return Err(CliError::Invalid("Executable should be file."));
    }
    match resolved {
        Some(p) => Ok(p),
        None => {
            proof {
                reveal_strlit("Executable path could not be resolved.");
            }
            Err(CliError::Invalid("Executable path could not be resolved."))
        },
    }
}

/// The executable to install, by its resolved path.
pub struct Executable(pub PathBuf);

impl Opt for Executable {
    /// The next argument is taken when the executable is not set yet and
    /// the file system finds a file there; when it does not, that fails with
    /// the message of what is wrong: nothing there, not a file, or a path that
    /// cannot be resolved.
    open spec fn takes(
        this: Option<Self>,
        cx: ParsingContext,
        r: Result<bool, CliError>,
        this_after: Option<Self>,
        cx_after: ParsingContext,
    ) -> bool {
        if this.is_some() {
            r == Ok::<bool, CliError>(false) && this_after == this
        } else {
            match cx.next_arg() {
                None => r == Ok::<bool, CliError>(false) && this_after == this,
                Some(_) => match r {
                    Ok(taken) => {
                        &&& taken
                        &&& this_after.is_some()
                        &&& cx_after.cursor == cx.cursor + 1
                    },
                    Err(_) => {
                        &&& (fails_with(r, missing_file_message()) || fails_with(r, not_a_file_message())
                            || fails_with(r, unresolved_message()))
                        &&& cx_after.cursor == cx.cursor
                        &&& this_after.is_none()
                    },
                },
            }
        }
    }

    /// Takes the next argument when the executable is not set yet; fails
    /// when it names nothing on disk, or something that is not a file.
    fn try_parse_self(this: &mut Option<Self>, cx: &mut ParsingContext) -> (r: Result<
        bool,
        CliError,
    >) {
        if this.is_some() {
            return Ok(false);
        }
        let n = cx.args.len();
        if cx.cursor < n {
            match &cx.args[cx.cursor] {
                Arg::Unicode(next) => {
                    let exists = path_exists(next.as_str());
                    let is_file = path_is_file(next.as_str());
                    let resolved = canonical_path(next.as_str());
                    match check_executable(exists, is_file, resolved) {
                        Ok(p) => {
                            cx.cursor = cx.cursor + 1;
                            *this = Some(Executable(p));
                            Ok(true)
                        },
                        Err(e) => Err(e),
                    }
                },
                Arg::NotUnicode(_) => Ok(false),
            }
        } else {
            Ok(false)
        }
    }

    /// The executable is required.
    open spec fn finalizes(this: Option<Self>, r: Result<Self, CliError>) -> bool {
        match this {
            Some(v) => r == Ok::<Self, CliError>(v),
            None => missing_with(r, "You should provide executable path"@),
        }
    }

    fn finalize(this: Option<Self>) -> (r: Result<Self, CliError>) {
        match this {
            Some(v) => Ok(v),
            None => Err(CliError::Missing("You should provide executable path")),
        }
    }

    open spec fn documents(before: DocumentationStore, after: DocumentationStore) -> bool {
        lists_entry(before, after, "argument"@, "executable"@, "path to executable"@)
    }

    fn add_documentation(store: &mut DocumentationStore) {
        let entry = Documentation { names: Names::only_main("executable"), description: "path to executable" };
        store.add("argument", entry);
        assert(is_plain_entry(entry, "executable"@, "path to executable"@));
    }
}

/// The name an executable is installed under.
pub struct ExecutableName(pub String);

impl Opt for ExecutableName {
    /// The next argument is taken when the name is not set yet; an argument
    /// with a character not allowed in a name fails.
    open spec fn takes(
        this: Option<Self>,
        cx: ParsingContext,
        r: Result<bool, CliError>,
        this_after: Option<Self>,
        cx_after: ParsingContext,
    ) -> bool {
        if this.is_some() {
            r == Ok::<bool, CliError>(false) && this_after == this
        } else {
            match cx.next_arg() {
                None => r == Ok::<bool, CliError>(false) && this_after == this,
                Some(a) => if is_valid_name(a) {
                    &&& r == Ok::<bool, CliError>(true)
                    &&& this_after matches Some(n) && n.0@ == a
                    &&& cx_after.cursor == cx.cursor + 1
                } else {
                    &&& fails_with(r, invalid_name_message())
                    &&& cx_after.cursor == cx.cursor
                    &&& this_after == this
                },
            }
        }
    }

    /// Takes the next argument when the name is not set yet; fails when the
    /// argument holds a character other than an ASCII letter or digit, `_`
    /// or `-`.
    fn try_parse_self(this: &mut Option<Self>, cx: &mut ParsingContext) -> (r: Result<
        bool,
        CliError,
    >) {
        if this.is_some() {
            return Ok(false);
        }
        let n = cx.args.len();
        if cx.cursor < n {
            match &cx.args[cx.cursor] {
                Arg::Unicode(next) => {
                    if !valid_executable_name(next.as_str()) {
                        return Err(
                            CliError::Invalid(
                                "Name could contain alphanumeric characters as well as '_' and '-'.",
                            ),
                        );
                    }
                    let name = next.clone();
                    cx.cursor = cx.cursor + 1;
                    *this = Some(ExecutableName(name));
                    Ok(true)
                },
                Arg::NotUnicode(_) => Ok(false),
            }
        } else {
            Ok(false)
        }
    }

    /// The name is required.
    open spec fn finalizes(this: Option<Self>, r: Result<Self, CliError>) -> bool {
        match this {
            Some(v) => r == Ok::<Self, CliError>(v),
            None => missing_with(r, "You should provide executable name"@),
        }
    }

    fn finalize(this: Option<Self>) -> (r: Result<Self, CliError>) {
        match this {
            Some(v) => Ok(v),
            None => Err(CliError::Missing("You should provide executable name")),
        }
    }

    open spec fn documents(before: DocumentationStore, after: DocumentationStore) -> bool {
        lists_entry(before, after, "argument"@, "name"@, "name of installed executable"@)
    }

    fn add_documentation(store: &mut DocumentationStore) {
        let entry = Documentation { names: Names::only_main("name"), description: "name of installed executable" };
        store.add("argument", entry);
        assert(is_plain_entry(entry, "name"@, "name of installed executable"@));
    }
}

/// Where the installed executable can be downloaded or updated from.
pub struct DownloadLink(pub String);

impl Opt for DownloadLink {
    /// The next argument is taken when the link is not set yet.
    open spec fn takes(
        this: Option<Self>,
        cx: ParsingContext,
        r: Result<bool, CliError>,
        this_after: Option<Self>,
        cx_after: ParsingContext,
    ) -> bool {
        if this.is_some() {
            r == Ok::<bool, CliError>(false) && this_after == this
        } else {
            match cx.next_arg() {
                None => r == Ok::<bool, CliError>(false) && this_after == this,
                Some(a) => {
                    &&& r == Ok::<bool, CliError>(true)
                    &&& this_after matches Some(d) && d.0@ == a
                    &&& cx_after.cursor == cx.cursor + 1
                },
            }
        }
    }

    /// Takes the next argument when the link is not set yet.
    fn try_parse_self(this: &mut Option<Self>, cx: &mut ParsingContext) -> (r: Result<
        bool,
        CliError,
    >) {
        if this.is_some() {
            return Ok(false);
        }
        let n = cx.args.len();
        if cx.cursor < n {
            match &cx.args[cx.cursor] {
                Arg::Unicode(next) => {
                    let link = next.clone();
                    cx.cursor = cx.cursor + 1;
                    *this = Some(DownloadLink(link));
                    Ok(true)
                },
                Arg::NotUnicode(_) => Ok(false),
            }
        } else {
            Ok(false)
        }
    }

    /// The link is required.
    open spec fn finalizes(this: Option<Self>, r: Result<Self, CliError>) -> bool {
        match this {
            Some(v) => r == Ok::<Self, CliError>(v),
            None => missing_with(r, "You should provide download link"@),
        }
    }

    fn finalize(this: Option<Self>) -> (r: Result<Self, CliError>) {
        match this {
            Some(v) => Ok(v),
            None => Err(CliError::Missing("You should provide download link")),
        }
    }

    open spec fn documents(before: DocumentationStore, after: DocumentationStore) -> bool {
        lists_entry(before, after, "argument"@, "download_link"@, "where installed executable could be updated or downloaded"@)
    }

    fn add_documentation(store: &mut DocumentationStore) {
        let entry = Documentation { names: Names::only_main("download_link"), description: "where installed executable could be updated or downloaded" };
        store.add("argument", entry);
        assert(is_plain_entry(entry, "download_link"@, "where installed executable could be updated or downloaded"@));
    }
}

/// An optional comment, kept in the metadata.
pub struct Comment(pub Option<String>);

impl Opt for Comment {
    /// The next argument is taken when no comment is set yet.
    open spec fn takes(
        this: Option<Self>,
        cx: ParsingContext,
        r: Result<bool, CliError>,
        this_after: Option<Self>,
        cx_after: ParsingContext,
    ) -> bool {
        if this.is_some() {
            r == Ok::<bool, CliError>(false) && this_after == this
        } else {
            match cx.next_arg() {
                None => r == Ok::<bool, CliError>(false) && this_after == this,
                Some(a) => {
                    &&& r == Ok::<bool, CliError>(true)
                    &&& this_after matches Some(c) && c.0 matches Some(t) && t@ == a
                    &&& cx_after.cursor == cx.cursor + 1
                },
            }
        }
    }

    /// Takes the next argument when no comment is set yet.
    fn try_parse_self(this: &mut Option<Self>, cx: &mut ParsingContext) -> (r: Result<
        bool,
        CliError,
    >) {
        if this.is_some() {
            return Ok(false);
        }
        let n = cx.args.len();
        if cx.cursor < n {
            match &cx.args[cx.cursor] {
                Arg::Unicode(next) => {
                    let comment = next.clone();
                    cx.cursor = cx.cursor + 1;
                    *this = Some(Comment(Some(comment)));
                    Ok(true)
                },
                Arg::NotUnicode(_) => Ok(false),
            }
        } else {
            Ok(false)
        }
    }

    /// No comment unless one was given.
    open spec fn finalizes(this: Option<Self>, r: Result<Self, CliError>) -> bool {
        match this {
            Some(c) => r == Ok::<Self, CliError>(c),
            None => r matches Ok(c) && c.0 is None,
        }
    }

    fn finalize(this: Option<Self>) -> (r: Result<Self, CliError>) {
        match this {
            Some(v) => Ok(v),
            None => Ok(Comment(None)),
        }
    }

    open spec fn documents(before: DocumentationStore, after: DocumentationStore) -> bool {
        lists_entry(before, after, "argument"@, "?comment"@, "any comment, stored in metadata"@)
    }

    fn add_documentation(store: &mut DocumentationStore) {
        let entry = Documentation { names: Names::only_main("?comment"), description: "any comment, stored in metadata" };
        store.add("argument", entry);
        assert(is_plain_entry(entry, "?comment"@, "any comment, stored in metadata"@));
    }
}

} // verus!
