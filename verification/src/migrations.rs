//! Where scripts for the database are found, and in which order they run.
use crate::sort::{arrange, stable_order, TextKey};
use crate::text::char_list;
use vstd::prelude::*;
use vstd::string::StringExecFns;

verus! {

/// The folders that may hold the migrations, the first one first: the one from
/// the environment, the one below the current folder, the one of the sources.
pub fn candidate_paths(
    from_environment: Option<String>,
    relative: String,
    compile_time: String,
) -> (r: Vec<String>)
    ensures
        r@ == (match from_environment {
            Some(path) => seq![path, relative, compile_time],
            None => seq![relative, compile_time],
        }),
{
    let mut paths: Vec<String> = Vec::new();
    match from_environment {
        Some(path) => paths.push(path),
        None => {},
    }
    paths.push(relative);
    paths.push(compile_time);
    paths
}

/// Texts with a comma and a space between them.
pub open spec fn listed(texts: Seq<Seq<char>>) -> Seq<char>
    decreases texts.len(),
{
    if texts.len() == 0 {
        seq![]
    } else if texts.len() == 1 {
        texts[0]
    } else {
        listed(texts.drop_last()) + ", "@ + texts.last()
    }
}

fn list_text(texts: &Vec<String>) -> (r: String)
    ensures
        r@ == listed(crate::text::list_view(texts@)),
{
    let ghost all = crate::text::list_view(texts@);
    let mut text = String::new();
    let mut i: usize = 0;
    while i < texts.len()
        invariant
            i <= texts@.len(),
            all == crate::text::list_view(texts@),
            text@ == listed(all.take(i as int)),
        decreases texts.len() - i,
    {
        proof {
            assert(all.take(i + 1).drop_last() =~= all.take(i as int));
            assert(all.take(i + 1).last() == texts@[i as int]@);
        }
        if i > 0 {
            text.append(", ");
        } else {
            assert(text@ + texts@[0]@ =~= texts@[0]@);
        }
        text.append(texts[i].as_str());
        i = i + 1;
    }
    assert(all.take(all.len() as int) =~= all);
    text
}

/// Chooses the first folder that exists.
pub fn migrations_path(paths: &Vec<String>, exists_on_disk: &Vec<bool>) -> (r: Result<usize, String>)
    requires
        paths@.len() == exists_on_disk@.len(),
    ensures
        match r {
            Ok(i) => i < paths@.len() && exists_on_disk@[i as int] && forall|k: int|
                0 <= k < i ==> !(#[trigger] exists_on_disk@[k]),
            Err(message) => (forall|k: int|
                0 <= k < paths@.len() ==> !(#[trigger] exists_on_disk@[k])) && message@
                == "Migrations folder not found. Checked paths: "@ + listed(
                crate::text::list_view(paths@),
            ),
        },
{
    let mut i: usize = 0;
    while i < exists_on_disk.len()
        invariant
            i <= exists_on_disk@.len(),
            paths@.len() == exists_on_disk@.len(),
            forall|k: int| 0 <= k < i ==> !(#[trigger] exists_on_disk@[k]),
        decreases exists_on_disk.len() - i,
    {
        if exists_on_disk[i] {
            return Ok(i);
        }
        i = i + 1;
    }
    let mut message = "Migrations folder not found. Checked paths: ".to_owned();
    message.append(list_text(paths).as_str());
    Err(message)
}

/// Whether a file is a script: something, and then the extension `sql`.
pub open spec fn is_script(name: Seq<char>) -> bool {
    &&& name.len() > 4
    &&& name[name.len() - 4] == '.'
    &&& name[name.len() - 3] == 's'
    &&& name[name.len() - 2] == 'q'
    &&& name[name.len() - 1] == 'l'
}

fn script(name: &str) -> (r: bool)
    ensures
        r == is_script(name@),
{
    let chars = char_list(name);
    let n: usize = chars.len();
    n > 4 && chars[n - 4] == '.' && chars[n - 3] == 's' && chars[n - 2] == 'q' && chars[n - 1]
        == 'l'
}

/// The scripts among files, in the order in which the files come.
pub open spec fn scripts(names: Seq<String>) -> Seq<String>
    decreases names.len(),
{
    if names.len() == 0 {
        seq![]
    } else if is_script(names.last()@) {
        scripts(names.drop_last()).push(names.last())
    } else {
        scripts(names.drop_last())
    }
}

/// Names as keys.
pub open spec fn name_keys(names: Seq<String>) -> Seq<TextKey> {
    names.map_values(|name: String| TextKey { text: name })
}

/// The scripts among files, in the order of their names, in which they run.
pub fn seed_scripts(names: &Vec<String>) -> (r: Vec<String>)
    ensures
        exists|order: Seq<usize>|
            crate::sort::is_stable_order(name_keys(scripts(names@)), order) && r@
                == #[trigger] crate::sort::arranged(scripts(names@), order),
{
    let mut found: Vec<String> = Vec::new();
    let mut keys: Vec<TextKey> = Vec::new();
    let mut i: usize = 0;
    assert(names@.take(0) =~= seq![]);
    while i < names.len()
        invariant
            i <= names@.len(),
            found@ == scripts(names@.take(i as int)),
            keys@.len() == found@.len(),
            forall|k: int| 0 <= k < found@.len() ==> (#[trigger] keys@[k]).text == found@[k],
        decreases names.len() - i,
    {
        proof {
            assert(names@.take(i + 1).drop_last() =~= names@.take(i as int));
            assert(names@.take(i + 1).last() == names@[i as int]);
        }
        if script(names[i].as_str()) {
            found.push(names[i].clone());
            keys.push(TextKey { text: names[i].clone() });
        }
        i = i + 1;
    }
    assert(names@.take(names@.len() as int) =~= names@);
    let order = stable_order(&keys);
    assert(keys@ =~= name_keys(found@));
    arrange(found, &order)
}

/// Texts are listed in their order, with a comma and a space before each but the
/// first.
pub proof fn law_texts_are_listed_in_order(texts: Seq<Seq<char>>, text: Seq<char>)
    ensures
        listed(seq![]).len() == 0,
        listed(seq![text]) == text,
        texts.len() > 0 ==> listed(texts.push(text)) == listed(texts) + ", "@ + text,
{
    assert(texts.push(text).drop_last() =~= texts);
}

/// A file is a script where its name is something and then the extension `sql`,
/// in lower case; every such file is among the scripts, and no other one.
pub proof fn law_scripts_have_their_extension(names: Seq<String>, name: String, stem: Seq<char>)
    ensures
        stem.len() > 0 ==> is_script(stem + ".sql"@),
        is_script(name@) ==> name@.len() > 4 && name@ == name@.take(name@.len() - 4) + ".sql"@,
        scripts(seq![]).len() == 0,
        is_script(name@) ==> scripts(names.push(name)) == scripts(names).push(name),
        !is_script(name@) ==> scripts(names.push(name)) == scripts(names),
{
    reveal_strlit(".sql");
    assert(names.push(name).drop_last() =~= names);
    assert(".sql"@.len() == 4 && ".sql"@[0] == '.' && ".sql"@[1] == 's' && ".sql"@[2] == 'q'
        && ".sql"@[3] == 'l');
    if is_script(name@) {
        assert(name@ =~= name@.take(name@.len() - 4) + ".sql"@);
    }
}

/// The folder from the environment is looked at first, and the one of the sources
/// last; a folder that is taken exists, and none before it does.
pub proof fn law_the_first_folder_is_taken(
    from_environment: Option<String>,
    relative: String,
    compile_time: String,
    paths: Vec<String>,
    exists_on_disk: Vec<bool>,
    first: usize,
    earlier: int,
)
    requires
        call_ensures(candidate_paths, (from_environment, relative, compile_time), paths),
        call_ensures(
            migrations_path,
            (&paths, &exists_on_disk),
            Ok::<usize, String>(first),
        ),
        paths@.len() == exists_on_disk@.len(),
    ensures
        from_environment matches Some(path) ==> paths@[0] == path && paths@.len() == 3,
        from_environment is None ==> paths@[0] == relative && paths@.len() == 2,
        paths@[paths@.len() - 2] == relative,
        paths@.last() == compile_time,
        first < paths@.len(),
        exists_on_disk@[first as int],
        0 <= earlier < first ==> !exists_on_disk@[earlier],
{
}

} // verus!
