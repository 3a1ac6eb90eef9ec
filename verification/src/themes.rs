use vstd::prelude::*;
use vstd::string::StringExecFns;

verus! {

/// A configuration that comes with the library: the name of its file and
/// what the file holds.
pub struct ThemeFile {
    pub name: String,
    pub content: String,
}

/// The name of the file that holds the theme with the given name.
pub open spec fn theme_file_name(theme_name: Seq<char>) -> Seq<char> {
    theme_name + seq!['.', 'j', 's', 'o', 'n']
}

/// The place of the first file with the given name; the number of files
/// where there is none.
pub open spec fn find_theme(files: Seq<ThemeFile>, file_name: Seq<char>) -> int
    decreases files.len(),
{
    if files.len() == 0 {
        0
    } else if files[0].name@ == file_name {
        0
    } else {
        1 + find_theme(files.drop_first(), file_name)
    }
}

/// `find_theme` gives a place among the files or their number; no file
/// before that place has the name, and the file at that place has it.
pub proof fn lemma_find_theme(files: Seq<ThemeFile>, file_name: Seq<char>)
    ensures
        0 <= find_theme(files, file_name) <= files.len(),
        forall|i: int| 0 <= i < find_theme(files, file_name) ==> files[i].name@ != file_name,
        find_theme(files, file_name) < files.len() ==> files[find_theme(files, file_name)].name@
            == file_name,
    decreases files.len(),
{
    if files.len() > 0 && files[0].name@ != file_name {
        lemma_find_theme(files.drop_first(), file_name);
        assert forall|i: int| 0 <= i < find_theme(files, file_name) implies files[i].name@
            != file_name by {
            if i > 0 {
                assert(files[i] == files.drop_first()[i - 1]);
            }
        }
    }
}

/// The configuration of the theme with the given name, among the
/// configurations that come with the library: what the file `name.json`
/// holds. `None` where there is no such file.
pub fn get_theme(theme_name: &str, theme_configs: &Vec<ThemeFile>) -> (theme: Option<String>)
    ensures
        ({
            let place = find_theme(theme_configs@, theme_file_name(theme_name@));
            if place < theme_configs@.len() {
                theme is Some && theme.unwrap()@ == theme_configs@[place].content@
            } else {
                theme is None
            }
        }),
{
    proof {
        reveal_strlit(".json");
        assert(".json"@ =~= seq!['.', 'j', 's', 'o', 'n']);
    }
    let file_name = String::from_str(theme_name).concat(".json");
    let mut place: usize = 0;
    while place < theme_configs.len() && !theme_configs[place].name.eq(&file_name)
        invariant
            place <= theme_configs@.len(),
            forall|i: int| 0 <= i < place ==> theme_configs@[i].name@ != file_name@,
        decreases theme_configs@.len() - place,
    {
        place = place + 1;
    }
    proof {
        lemma_find_theme(theme_configs@, file_name@);
    }
    if place < theme_configs.len() {
        Some(theme_configs[place].content.clone())
    } else {
        None
    }
}

} // verus!
