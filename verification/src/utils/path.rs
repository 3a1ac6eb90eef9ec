use regex::Regex;
use vstd::prelude::*;
use vstd::string::StrSliceExecFns;
use vstd::string::StringExecFns;

verus! {

/// The pattern that finds the home directory in a path.
pub const HOME_PATTERN: &'static str = "(~|$HOME)";

/// The pattern that finds the separators of a path.
pub const SEPARATOR_PATTERN: &'static str = "/";

/// What stands between a directory and a file in it.
pub const PATH_SEPARATOR: char = '/';

/// The text that `Regex::replace_all` gives for a pattern, a text and a
/// replacement; `None` where `Regex::new` does not accept the pattern.
pub uninterp spec fn regex_replace_all(
    pattern: Seq<char>,
    text: Seq<char>,
    replacement: Seq<char>,
) -> Option<Seq<char>>;

/// Calls `regex::Regex::new` on the pattern and, where that gives a regular
/// expression, `Regex::replace_all` on the text and the replacement. The
/// result is a function of the three texts alone and is named
/// `regex_replace_all`: every match of the pattern in the text is replaced,
/// and `$` in the replacement refers to the groups of the match.
#[verifier::external_body]
fn replace_all(pattern: &str, text: &str, replacement: &str) -> (replaced: Option<String>)
    ensures
        match regex_replace_all(pattern@, text@, replacement@) {
            Some(expected) => replaced is Some && replaced.unwrap()@ == expected,
            None => replaced is None,
        },
{
    match Regex::new(pattern) {
        Ok(regex) => Some(regex.replace_all(text, replacement).into_owned()),
        Err(_) => None,
    }
}

/// A path with the home directory filled in: every `~` is replaced by
/// `home_path`. Without a home directory the path stays as it is. `None`
/// where the pattern for the home directory is not accepted.
pub fn parse_home_variable(path: &str, home_path: Option<&str>) -> (parsed: Option<String>)
    ensures
        match home_path {
            None => parsed is Some && parsed.unwrap()@ == path@,
            Some(home) => match regex_replace_all(HOME_PATTERN@, path@, home@) {
                Some(expected) => parsed is Some && parsed.unwrap()@ == expected,
                None => parsed is None,
            },
        },
{
    match home_path {
        None => Some(String::from_str(path)),
        Some(home) => replace_all(HOME_PATTERN, path, home),
    }
}

/// A path with `separator` in place of every separator of its own. `None`
/// where the pattern for the separators is not accepted.
pub fn parse_separator(path_str: &str, separator: &str) -> (parsed: Option<String>)
    ensures
        match regex_replace_all(SEPARATOR_PATTERN@, path_str@, separator@) {
            Some(expected) => parsed is Some && parsed.unwrap()@ == expected,
            None => parsed is None,
        },
{
    replace_all(SEPARATOR_PATTERN, path_str, separator)
}

/// The name of a file for a snapshot taken at the given time.
pub open spec fn temp_file_name(formatted_time: Seq<char>) -> Seq<char> {
    seq!['C', 'o', 'd', 'e', 'S', 'n', 'a', 'p', '_'] + formatted_time
}

/// The name of the file that a snapshot is saved in where only a directory
/// was named: `CodeSnap_` and the time the snapshot was taken at.
pub fn create_temp_file_name(formatted_time: &str) -> (name: String)
    ensures
        name@ == temp_file_name(formatted_time@),
{
    proof {
        reveal_strlit("CodeSnap_");
        assert("CodeSnap_"@ =~= seq!['C', 'o', 'd', 'e', 'S', 'n', 'a', 'p', '_']);
    }
    String::from_str("CodeSnap_").concat(formatted_time)
}

/// The path of a file in a directory: the directory, a separator where the
/// directory does not end with one, and the name of the file. In no
/// directory the file is its name, and so it is where its name starts with
/// a separator: such a name is a path from the root.
pub open spec fn file_in_directory(directory: Seq<char>, file_name: Seq<char>) -> Seq<char> {
    if directory.len() == 0 || (file_name.len() > 0 && file_name[0] == PATH_SEPARATOR) {
        file_name
    } else if directory.last() == PATH_SEPARATOR {
        directory + file_name
    } else {
        directory + seq![PATH_SEPARATOR] + file_name
    }
}

/// The path of a file in a directory.
pub fn join_path(directory: &str, file_name: &str) -> (path: String)
    ensures
        path@ == file_in_directory(directory@, file_name@),
{
    let length: usize = directory.unicode_len();
    if length == 0 || (file_name.unicode_len() > 0 && file_name.get_char(0) == PATH_SEPARATOR) {
        String::from_str(file_name)
    } else if directory.get_char(length - 1) == PATH_SEPARATOR {
        String::from_str(directory).concat(file_name)
    } else {
        proof {
            reveal_strlit("/");
            assert("/"@ =~= seq![PATH_SEPARATOR]);
        }
        String::from_str(directory).concat("/").concat(file_name)
    }
}

/// The file a snapshot is saved in: the path itself, or, where the path is
/// a directory, a file in it that is named after the time.
pub fn parse_file_name(path: &str, is_dir: bool, formatted_time: &str) -> (parsed: String)
    ensures
        parsed@ == if is_dir {
            file_in_directory(path@, temp_file_name(formatted_time@))
        } else {
            path@
        },
{
    if is_dir {
        let name = create_temp_file_name(formatted_time);
        join_path(path, name.as_str())
    } else {
        String::from_str(path)
    }
}

} // verus!
