use crate::utils::path::file_in_directory;
use crate::utils::path::join_path;
use crate::utils::text::chars_of;
use crate::utils::text::find_char;
use crate::utils::text::find_from;
use mime_guess::get_mime_extensions;
use mime_guess::mime::Mime;
use url::Url;
use vstd::prelude::*;
use vstd::string::StrSliceExecFns;
use vstd::string::StringExecFns;

verus! {

/// What stands between the name of an asset and its address.
pub const ASSETS_SEPARATOR: char = '@';

/// Why an asset was not accepted.
#[derive(Clone, Copy, Debug, PartialEq, Eq, Structural)]
pub enum AssetsError {
    /// The text is not a name, one separator and an address.
    InvalidUrlFormat,
    /// The address cannot be read as an address.
    InvalidUrl,
    /// The address names no kind of file, and neither does the content
    /// type.
    UnknownContentType,
}

/// The directory that downloaded assets are kept in.
pub struct Assets {
    destination: String,
}

/// An asset to download: the name it is kept under, and its address.
#[derive(Debug)]
pub struct AssetsURL {
    pub name: String,
    pub url: String,
}

/// An asset that was downloaded: its name, the address it came from, and
/// the file it is kept in.
pub struct AssetEntry {
    pub name: String,
    pub url: String,
    pub path: String,
}

/// What to do to have an asset.
pub enum DownloadPlan {
    /// The asset is there: it is kept in this file.
    UseCached(String),
    /// The asset has to be fetched. Where a file is named, it holds what
    /// was fetched from another address under the same name, and is removed
    /// first.
    Fetch { stale_path: Option<String> },
}

/// The name and the address that a text of the form `name@address` holds.
/// There are none where the text holds no separator, or more than one.
pub open spec fn assets_url_parts(assets_url: Seq<char>) -> Option<(Seq<char>, Seq<char>)> {
    let first = find_char(assets_url, ASSETS_SEPARATOR);
    if first >= assets_url.len() {
        None
    } else {
        let rest = assets_url.subrange(first + 1, assets_url.len() as int);
        if find_char(rest, ASSETS_SEPARATOR) < rest.len() {
            None
        } else {
            Some((assets_url.subrange(0, first), rest))
        }
    }
}

impl AssetsURL {
    /// Reads an asset written as `name@address`.
    pub fn from_url(assets_url: &str) -> (parsed: Result<AssetsURL, AssetsError>)
        ensures
            match assets_url_parts(assets_url@) {
                Some((name, url)) => parsed is Ok && parsed.unwrap().name@ == name
                    && parsed.unwrap().url@ == url,
                None => parsed == Err::<AssetsURL, AssetsError>(AssetsError::InvalidUrlFormat),
            },
    {
        let chars = chars_of(assets_url);
        let length: usize = chars.len();
        let first: usize = find_from(&chars, 0, ASSETS_SEPARATOR);
        assert(chars@.subrange(0, length as int) =~= chars@);
        if first >= length {
            return Err(AssetsError::InvalidUrlFormat);
        }
        let second: usize = find_from(&chars, first + 1, ASSETS_SEPARATOR);
        if second < length {
            return Err(AssetsError::InvalidUrlFormat);
        }
        Ok(
            AssetsURL {
                name: String::from_str(assets_url.substring_char(0, first)),
                url: String::from_str(assets_url.substring_char(first + 1, length)),
            },
        )
    }
}

/// The place of the first entry with the given name; the number of entries
/// where there is none.
pub open spec fn find_entry(entries: Seq<AssetEntry>, name: Seq<char>) -> int
    decreases entries.len(),
{
    if entries.len() == 0 {
        0
    } else if entries[0].name@ == name {
        0
    } else {
        1 + find_entry(entries.drop_first(), name)
    }
}

/// `find_entry` gives a place among the entries or their number; no entry
/// before that place has the name, and the entry at that place has it.
pub proof fn lemma_find_entry(entries: Seq<AssetEntry>, name: Seq<char>)
    ensures
        0 <= find_entry(entries, name) <= entries.len(),
        forall|i: int| 0 <= i < find_entry(entries, name) ==> entries[i].name@ != name,
        find_entry(entries, name) < entries.len() ==> entries[find_entry(entries, name)].name@
            == name,
    decreases entries.len(),
{
    if entries.len() > 0 && entries[0].name@ != name {
        lemma_find_entry(entries.drop_first(), name);
        assert forall|i: int| 0 <= i < find_entry(entries, name) implies entries[i].name@
            != name by {
            if i > 0 {
                assert(entries[i] == entries.drop_first()[i - 1]);
            }
        }
    }
}

/// What to do to have the asset with the given name and address, given the
/// assets that were downloaded before. An asset that was downloaded from
/// the same address under the same name is there. One that was downloaded
/// from another address under the same name is stale: its file goes, and the
/// asset is fetched. Any other asset is fetched.
pub open spec fn download_plan(
    entries: Seq<AssetEntry>,
    name: Seq<char>,
    url: Seq<char>,
) -> (bool, Option<Seq<char>>) {
    let place = find_entry(entries, name);
    if 0 <= place < entries.len() {
        if entries[place].url@ == url {
            (true, Some(entries[place].path@))
        } else {
            (false, Some(entries[place].path@))
        }
    } else {
        (false, None)
    }
}

/// The name of the file an asset is kept in: its name, a dot, and the
/// extension.
pub open spec fn asset_file_name(name: Seq<char>, extension: Seq<char>) -> Seq<char> {
    name + seq!['.'] + extension
}

impl Assets {
    /// The directory.
    pub closed spec fn destination(&self) -> Seq<char> {
        self.destination@
    }

    pub fn from(destination: &str) -> (assets: Assets)
        ensures
            assets.destination() == destination@,
    {
        Assets { destination: String::from_str(destination) }
    }

    /// The file that lists the downloaded assets: `assets_map.json` in the
    /// directory.
    pub fn get_assets_map_path(&self) -> (path: String)
        ensures
            path@ == file_in_directory(self.destination(), "assets_map.json"@),
    {
        join_path(self.destination.as_str(), "assets_map.json")
    }

    /// The file an asset is kept in: a file in the directory with the name
    /// of the asset and the given extension.
    pub fn asset_path(&self, name: &str, extension: &str) -> (path: String)
        ensures
            path@ == file_in_directory(self.destination(), asset_file_name(name@, extension@)),
    {
        let file_name = Assets::file_name(name, extension);
        join_path(self.destination.as_str(), file_name.as_str())
    }

    /// The directory as a text.
    pub fn destination_path(&self) -> (path: &str)
        ensures
            path@ == self.destination(),
    {
        self.destination.as_str()
    }

    fn find(entries: &Vec<AssetEntry>, name: &String) -> (place: usize)
        ensures
            place == find_entry(entries@, name@),
            place <= entries@.len(),
    {
        let mut place: usize = 0;
        proof {
            lemma_find_entry(entries@, name@);
        }
        while place < entries.len() && !entries[place].name.eq(name)
            invariant
                place <= entries@.len(),
                forall|i: int| 0 <= i < place ==> entries@[i].name@ != name@,
            decreases entries@.len() - place,
        {
            place = place + 1;
        }
        proof {
            lemma_find_entry(entries@, name@);
        }
        place
    }

    /// Decides what to do to have an asset.
    pub fn plan_download(entries: &Vec<AssetEntry>, assets_url: &AssetsURL) -> (plan: DownloadPlan)
        ensures
            match download_plan(entries@, assets_url.name@, assets_url.url@) {
                (true, Some(path)) => plan matches DownloadPlan::UseCached(cached) && cached@
                    == path,
                (false, Some(path)) => plan matches DownloadPlan::Fetch { stale_path: Some(stale) }
                    && stale@ == path,
                _ => plan matches DownloadPlan::Fetch { stale_path: None },
            },
    {
        let place: usize = Assets::find(entries, &assets_url.name);
        if place < entries.len() {
            let entry = &entries[place];
            if entry.url.eq(&assets_url.url) {
                DownloadPlan::UseCached(entry.path.clone())
            } else {
                DownloadPlan::Fetch { stale_path: Some(entry.path.clone()) }
            }
        } else {
            DownloadPlan::Fetch { stale_path: None }
        }
    }

    /// The name of the file an asset is kept in.
    pub fn file_name(name: &str, extension: &str) -> (file_name: String)
        ensures
            file_name@ == asset_file_name(name@, extension@),
    {
        proof {
            reveal_strlit(".");
            assert("."@ =~= seq!['.']);
        }
        String::from_str(name).concat(".").concat(extension)
    }

    /// Notes that the asset `name` was downloaded from `url` into `path`:
    /// the entry with that name is replaced, or a new entry is added at the
    /// end.
    pub fn upsert_assets_map(entries: &mut Vec<AssetEntry>, name: &str, url: &str, path: &str)
        ensures
            ({
                let place = find_entry(old(entries)@, name@);
                &&& final(entries)@.len() == if place < old(entries)@.len() {
                    old(entries)@.len()
                } else {
                    old(entries)@.len() + 1
                }
                &&& final(entries)@[place].name@ == name@
                &&& final(entries)@[place].url@ == url@
                &&& final(entries)@[place].path@ == path@
                &&& forall|i: int|
                    0 <= i < old(entries)@.len() && i != place ==> final(entries)@[i] == old(
                        entries,
                    )@[i]
            }),
    {
        let name = String::from_str(name);
        let entry = AssetEntry { name: name.clone(), url: String::from_str(url), path: String::from_str(path) };
        let place: usize = Assets::find(entries, &name);
        if place < entries.len() {
            entries.set(place, entry);
        } else {
            entries.push(entry);
        }
    }
}

/// The segments of the path of an address, as `url::Url` reads it: `None`
/// where the text is no address, `Some(None)` where the address has no path
/// of segments.
pub uninterp spec fn url_path_segments(url: Seq<char>) -> Option<Option<Seq<Seq<char>>>>;

/// The extensions that `mime_guess` knows for a content type, in its
/// order; `None` where the text is no content type, or where the content
/// type is not known.
pub uninterp spec fn mime_extensions(content_type: Seq<char>) -> Option<Seq<Seq<char>>>;

/// The given texts are the expected ones, one for one.
pub open spec fn texts_are(texts: Seq<String>, expected: Seq<Seq<char>>) -> bool {
    &&& texts.len() == expected.len()
    &&& forall|i: int| 0 <= i < texts.len() ==> (#[trigger] texts[i])@ == expected[i]
}

/// Calls `url::Url::parse` and, on the address it gives, `path_segments`,
/// and hands out every segment. The result is a function of the text alone
/// and is named `url_path_segments`.
#[verifier::external_body]
fn path_segments(url: &str) -> (segments: Option<Option<Vec<String>>>)
    ensures
        match url_path_segments(url@) {
            None => segments is None,
            Some(None) => segments == Some(None::<Vec<String>>),
            Some(Some(expected)) => segments is Some && segments.unwrap() is Some && texts_are(
                segments.unwrap().unwrap()@,
                expected,
            ),
        },
{
    match Url::parse(url) {
        Ok(parsed) => Some(
            parsed.path_segments().map(|segments| segments.map(String::from).collect()),
        ),
        Err(_) => None,
    }
}

/// Reads the text as a `mime::Mime` and calls `mime_guess::get_mime_extensions`
/// on it, and hands out every extension. The result is a function of the
/// text alone and is named `mime_extensions`.
#[verifier::external_body]
fn known_extensions(content_type: &str) -> (extensions: Option<Vec<String>>)
    ensures
        match mime_extensions(content_type@) {
            None => extensions is None,
            Some(expected) => extensions is Some && texts_are(extensions.unwrap()@, expected),
        },
{
    let mime_type = content_type.parse::<Mime>().ok()?;
    get_mime_extensions(&mime_type).map(
        |extensions| extensions.iter().map(|extension| extension.to_string()).collect(),
    )
}

/// The place after the last `wanted` in a text; 0 where there is none.
pub open spec fn after_last(text: Seq<char>, wanted: char) -> int
    decreases text.len(),
{
    if text.len() == 0 {
        0
    } else if text.last() == wanted {
        text.len() as int
    } else {
        after_last(text.drop_last(), wanted)
    }
}

/// The extension of the name of a file: what follows its last dot. A name
/// without a dot has none, and neither has a name whose only dot comes
/// first, nor the names `.` and `..`.
pub open spec fn file_extension(file_name: Seq<char>) -> Option<Seq<char>> {
    let start = after_last(file_name, '.');
    if start <= 1 || file_name == seq!['.', '.'] {
        None
    } else {
        Some(file_name.subrange(start, file_name.len() as int))
    }
}

/// The last segment of the path of an address, where it has one.
pub open spec fn last_segment(segments: Option<Seq<Seq<char>>>) -> Option<Seq<char>> {
    match segments {
        Some(all) => if all.len() > 0 {
            Some(all.last())
        } else {
            None
        },
        None => None,
    }
}

/// The first of the extensions that are known for a content type, where
/// there is one.
pub open spec fn first_extension(extensions: Option<Seq<Seq<char>>>) -> Option<Seq<char>> {
    match extensions {
        Some(all) => if all.len() > 0 {
            Some(all[0])
        } else {
            None
        },
        None => None,
    }
}

/// The extension of the file that an asset is kept in: the extension of
/// the last segment of its address, else the first extension that is known
/// for the content type it was sent with.
pub open spec fn asset_extension(
    segments: Option<Option<Seq<Seq<char>>>>,
    extensions: Option<Seq<Seq<char>>>,
) -> Result<Seq<char>, AssetsError> {
    match segments {
        None => Err(AssetsError::InvalidUrl),
        Some(segments) => {
            let from_url = match last_segment(segments) {
                Some(name) => file_extension(name),
                None => None,
            };
            match from_url {
                Some(extension) => Ok(extension),
                None => match first_extension(extensions) {
                    Some(extension) => Ok(extension),
                    None => Err(AssetsError::UnknownContentType),
                },
            }
        },
    }
}

impl Assets {
    /// The extension of the name of a file.
    pub fn extension_of(file_name: &str) -> (extension: Option<String>)
        ensures
            match file_extension(file_name@) {
                Some(expected) => extension is Some && extension.unwrap()@ == expected,
                None => extension is None,
            },
    {
        let chars = chars_of(file_name);
        let length: usize = chars.len();
        let mut start: usize = length;
        assert(chars@.take(length as int) =~= chars@);
        while start > 0 && chars[start - 1] != '.'
            invariant
                start <= length,
                length == chars@.len(),
                after_last(chars@, '.') == after_last(chars@.take(start as int), '.'),
            decreases start,
        {
            proof {
                assert(chars@.take(start as int).drop_last() =~= chars@.take(start - 1));
            }
            start = start - 1;
        }
        proof {
            if start > 0 {
                assert(chars@.take(start as int).last() == '.');
            }
        }
        if start <= 1 || (length == 2 && chars[0] == '.') {
            proof {
                if start > 1 {
                    assert(chars@ =~= seq!['.', '.']);
                } else if length == 2 {
                    assert(chars@[1] != '.' || start == 2);
                }
            }
            None
        } else {
            proof {
                if chars@ == seq!['.', '.'] {
                    assert(chars@[0] == '.');
                }
            }
            Some(String::from_str(file_name.substring_char(start, length)))
        }
    }

    /// The extension of the file that the asset at `url` is kept in, given
    /// the content type it was sent with.
    pub fn extension(url: &str, content_type: &str) -> (extension: Result<String, AssetsError>)
        ensures
            match asset_extension(url_path_segments(url@), mime_extensions(content_type@)) {
                Ok(expected) => extension is Ok && extension.unwrap()@ == expected,
                Err(error) => extension is Err && extension->Err_0 == error,
            },
    {
        let segments = match path_segments(url) {
            Some(segments) => segments,
            None => {
                return Err(AssetsError::InvalidUrl);
            },
        };
        let from_url = match &segments {
            Some(all) => if all.len() > 0 {
                Assets::extension_of(all[all.len() - 1].as_str())
            } else {
                None
            },
            None => None,
        };
        let from_mime = match known_extensions(content_type) {
            Some(all) => if all.len() > 0 {
                Some(all[0].clone())
            } else {
                None
            },
            None => None,
        };
        Assets::choose_extension(from_url, from_mime)
    }

    /// The extension that is taken: the one of the address, else the one
    /// of the content type.
    pub fn choose_extension(from_url: Option<String>, from_mime: Option<String>) -> (extension:
        Result<String, AssetsError>)
        ensures
            match from_url {
                Some(expected) => extension is Ok && extension.unwrap() == expected,
                None => match from_mime {
                    Some(expected) => extension is Ok && extension.unwrap() == expected,
                    None => extension is Err && extension->Err_0
                        == AssetsError::UnknownContentType,
                },
            },
    {
        match from_url {
            Some(extension) => Ok(extension),
            None => match from_mime {
                Some(extension) => Ok(extension),
                None => Err(AssetsError::UnknownContentType),
            },
        }
    }
}

} // verus!
