//! Where the configuration file stands: the platform's configuration
//! directory for the application, and in it a file of a fixed name.

use vstd::prelude::*;
use vstd::string::*;

verus! {

#[verifier::external_type_specification]
#[verifier::external_body]
pub struct ExProjectDirs(directories_next::ProjectDirs);

/// The configuration directory that a project's directories hold, as text;
/// `None` where the path is no valid UTF-8.
pub uninterp spec fn project_config_dir(dirs: directories_next::ProjectDirs) -> Option<Seq<char>>;

/// `directories_next::ProjectDirs::config_dir`, the path turned into text
/// with `Path::to_str`: the directory that the value holds, or `None` where
/// it is no valid UTF-8. Not proved: that this is what `project_config_dir`
/// names.
#[verifier::external_body]
fn config_dir_text(project_dir: &directories_next::ProjectDirs) -> (r: Option<String>)
    ensures
        r is Some <==> project_config_dir(*project_dir) is Some,
        r matches Some(dir) ==> project_config_dir(*project_dir) == Some(dir@),
{
    project_dir.config_dir().to_str().map(String::from)
}

/// The name of the configuration file inside the configuration directory.
pub const CONFIG_FILE_NAME: &'static str = "tetris.json";

/// The segment of a path behind its last `/`: the whole path where it has
/// none, nothing where it ends in one.
pub open spec fn file_name_segment(path: Seq<char>) -> Seq<char>
    decreases path.len(),
{
    if path.len() == 0 {
        path
    } else if path.last() == '/' {
        Seq::empty()
    } else {
        file_name_segment(path.drop_last()).push(path.last())
    }
}

/// `name` put behind `dir`, with a `/` between them unless `dir` is empty or
/// ends in one already. The separator is `/` on every platform.
pub open spec fn join_path(dir: Seq<char>, name: Seq<char>) -> Seq<char> {
    if dir.len() == 0 || dir.last() == '/' {
        dir + name
    } else {
        dir.push('/') + name
    }
}

/// The path of the configuration file for a given configuration directory.
pub open spec fn config_location(dir: Seq<char>) -> Seq<char> {
    join_path(dir, CONFIG_FILE_NAME@)
}

/// The path of the configuration file inside `config_dir`.
pub fn config_file_in(config_dir: &str) -> (r: String)
    ensures
        r@ == config_location(config_dir@),
        file_name_segment(r@) == CONFIG_FILE_NAME@,
{
    proof {
        lemma_location_file_name(config_dir@);
    }
    let mut out = String::from_str(config_dir);
    let n = config_dir.unicode_len();
    if n > 0 && config_dir.get_char(n - 1) != '/' {
        out.append("/");
        proof {
            reveal_strlit("/");
            assert("/"@ =~= seq!['/']);
            assert(out@ =~= config_dir@.push('/'));
        }
    }
    out.append(CONFIG_FILE_NAME);
    out
}

/// The path of the configuration file of a project: the file of the fixed
/// name inside the project's configuration directory. `None` where that
/// directory cannot be written as text.
pub fn get_config_location(project_dir: &directories_next::ProjectDirs) -> (r: Option<String>)
    ensures
        r is Some <==> project_config_dir(*project_dir) is Some,
        r matches Some(path) ==> path@ == config_location(
            project_config_dir(*project_dir).unwrap(),
        ),
        r matches Some(path) ==> file_name_segment(path@) == CONFIG_FILE_NAME@,
{
    match config_dir_text(project_dir) {
        Some(dir) => Some(config_file_in(dir.as_str())),
        None => None,
    }
}

/// A name without `/` behind a prefix that is empty or ends in `/` is the
/// path's last segment.
pub proof fn lemma_segment_of_join(prefix: Seq<char>, name: Seq<char>)
    requires
        prefix.len() == 0 || prefix.last() == '/',
        forall|i: int| 0 <= i < name.len() ==> name[i] != '/',
    ensures
        file_name_segment(prefix + name) == name,
    decreases name.len(),
{
    if name.len() == 0 {
        assert(prefix + name =~= prefix);
        assert(file_name_segment(prefix) =~= name);
    } else {
        let whole = prefix + name;
        assert(whole.last() == name.last());
        assert(whole.drop_last() =~= prefix + name.drop_last());
        lemma_segment_of_join(prefix, name.drop_last());
        assert(name.drop_last().push(name.last()) =~= name);
    }
}

/// Whatever the configuration directory, the last segment of the
/// configuration file's path is the fixed file name.
pub proof fn lemma_location_file_name(dir: Seq<char>)
    ensures
        file_name_segment(config_location(dir)) == CONFIG_FILE_NAME@,
{
    reveal_strlit("tetris.json");
    let name = CONFIG_FILE_NAME@;
    assert(forall|i: int| 0 <= i < name.len() ==> name[i] != '/');
    if dir.len() == 0 || dir.last() == '/' {
        lemma_segment_of_join(dir, name);
    } else {
        lemma_segment_of_join(dir.push('/'), name);
    }
}

} // verus!
