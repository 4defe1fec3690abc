//! Where the store lives: a directory below a temporary directory, both
//! taken from the environment that the caller hands in.

use crate::table::Table;
use vstd::prelude::*;

verus! {

/// The variables that were defined when the process started.
pub struct Environment {
    vars: Table,
}

impl View for Environment {
    type V = Map<Seq<char>, Seq<char>>;

    closed spec fn view(&self) -> Map<Seq<char>, Seq<char>> {
        self.vars@
    }
}

impl Environment {
    /// An environment in which nothing is defined.
    pub fn new() -> (env: Environment)
        ensures
            env@ == Map::<Seq<char>, Seq<char>>::empty(),
    {
        Environment { vars: Table::new() }
    }

    /// Defines `name` as `value`, in place of an earlier definition.
    pub fn define(&mut self, name: &str, value: &str)
        ensures
            final(self)@ == old(self)@.insert(name@, value@),
    {
        self.vars.insert(name, value);
    }

    /// The value of `name`, if it is defined.
    pub fn lookup(&self, name: &str) -> (value: Option<String>)
        ensures
            match value {
                Some(text) => self@.contains_key(name@) && text@ == self@[name@],
                None => !self@.contains_key(name@),
            },
    {
        self.vars.get(name)
    }
}

/// The variables that may name the temporary directory, first choice first.
pub open spec fn temp_dir_names() -> Seq<Seq<char>> {
    seq!["BRIEFCASE_DIR"@, "TEMP"@, "TMPDIR"@]
}

/// The variable that may name the store's directory.
pub open spec fn dir_name_variable() -> Seq<char> {
    "BRIEFCASE_DIRNAME"@
}

/// The first of `names`, from index `from` on, that `env` defines.
pub open spec fn first_defined(
    env: Map<Seq<char>, Seq<char>>,
    names: Seq<Seq<char>>,
    from: int,
) -> Option<int>
    decreases names.len() - from,
{
    if from < 0 || from >= names.len() {
        None
    } else if env.contains_key(names[from]) {
        Some(from)
    } else {
        first_defined(env, names, from + 1)
    }
}

/// The temporary directory under `env`.
pub open spec fn temp_path_of(env: Map<Seq<char>, Seq<char>>) -> Seq<char> {
    match first_defined(env, temp_dir_names(), 0) {
        Some(i) => env[temp_dir_names()[i]],
        None => "/tmp"@,
    }
}

/// The variable that gave the temporary directory under `env`, or `N/A`.
pub open spec fn temp_source_of(env: Map<Seq<char>, Seq<char>>) -> Seq<char> {
    match first_defined(env, temp_dir_names(), 0) {
        Some(i) => temp_dir_names()[i],
        None => "N/A"@,
    }
}

/// The name of the store's directory under `env`.
pub open spec fn dir_name_of(env: Map<Seq<char>, Seq<char>>) -> Seq<char> {
    if env.contains_key(dir_name_variable()) {
        env[dir_name_variable()]
    } else {
        "briefcase"@
    }
}

/// The store's directory under `env`: the temporary directory, and below
/// it the directory of the store's name.
pub open spec fn briefcase_dir_of(env: Map<Seq<char>, Seq<char>>) -> Seq<Seq<char>> {
    seq![temp_path_of(env), dir_name_of(env)]
}

/// A temporary directory and the variable it was taken from.
#[derive(Clone, Debug, PartialEq, Eq)]
pub struct TempDir {
    pub path: String,
    pub env_var: String,
}

/// A path, as the components to join from the root down.
#[derive(Clone, Debug, PartialEq, Eq)]
pub struct StorePath {
    pub parts: Vec<String>,
}

impl View for StorePath {
    type V = Seq<Seq<char>>;

    open spec fn view(&self) -> Seq<Seq<char>> {
        Seq::new(self.parts@.len(), |i: int| self.parts@[i]@)
    }
}

impl StorePath {
    /// The path of one component.
    pub fn new(root: &str) -> (path: StorePath)
        ensures
            path@ == seq![root@],
    {
        let mut parts: Vec<String> = Vec::new();
        parts.push(root.to_owned());
        let path = StorePath { parts };
        assert(path@ =~= seq![root@]);
        path
    }

    /// This path with `part` below it.
    pub fn join(&self, part: &str) -> (path: StorePath)
        ensures
            path@ == self@.push(part@),
    {
        let n: usize = self.parts.len();
        let mut parts: Vec<String> = Vec::new();
        let mut i: usize = 0;
        while i < n
            invariant
                n == self.parts@.len(),
                i <= n,
                parts@.len() == i,
                forall|j: int| 0 <= j < i ==> (#[trigger] parts@[j])@ == self.parts@[j]@,
            decreases n - i,
        {
            parts.push(self.parts[i].clone());
            i += 1;
        }
        parts.push(part.to_owned());
        let path = StorePath { parts };
        assert(path@ =~= self@.push(part@));
        path
    }
}

/// The store's file below the user's home directory: the file
/// `file_name` in the directory `.briefcase` of `home`. There is no such
/// place where the home directory is not known.
pub fn get_home_store_path(home: Option<&str>, file_name: &str) -> (path: Option<StorePath>)
    ensures
        match home {
            Some(root) => path matches Some(place) && place@ == seq![
                root@,
                ".briefcase"@,
                file_name@,
            ],
            None => path is None,
        },
{
    match home {
        Some(root) => {
            let place = StorePath::new(root).join(".briefcase").join(file_name);
            assert(place@ =~= seq![root@, ".briefcase"@, file_name@]);
            Some(place)
        },
        None => None,
    }
}

/// The names of the variables that may name the temporary directory,
/// first choice first.
pub fn temp_dir_variables() -> (names: Vec<&'static str>)
    ensures
        names@.len() == temp_dir_names().len(),
        forall|i: int| 0 <= i < names@.len() ==> (#[trigger] names@[i])@ == temp_dir_names()[i],
{
    let mut names: Vec<&'static str> = Vec::new();
    names.push("BRIEFCASE_DIR");
    names.push("TEMP");
    names.push("TMPDIR");
    names
}

/// The name of the variable that may name the store's directory.
pub fn dir_name_variable_name() -> (name: &'static str)
    ensures
        name@ == dir_name_variable(),
{
    "BRIEFCASE_DIRNAME"
}

/// The temporary directory: the value of the first defined variable among
/// those that may name it, else `/tmp`.
pub fn get_temp_dir(env: &Environment) -> (dir: TempDir)
    ensures
        dir.path@ == temp_path_of(env@),
        dir.env_var@ == temp_source_of(env@),
{
    let names = temp_dir_variables();
    let n: usize = names.len();
    let mut i: usize = 0;
    while i < n
        invariant
            n == names@.len(),
            n == temp_dir_names().len(),
            i <= n,
            forall|j: int| 0 <= j < n ==> (#[trigger] names@[j])@ == temp_dir_names()[j],
            first_defined(env@, temp_dir_names(), 0) == first_defined(
                env@,
                temp_dir_names(),
                i as int,
            ),
        decreases n - i,
    {
        match env.lookup(names[i]) {
            Some(path) => {
                return TempDir { path, env_var: names[i].to_owned() };
            },
            None => {},
        }
        i += 1;
    }
    TempDir { path: "/tmp".to_owned(), env_var: "N/A".to_owned() }
}

/// The name of the store's directory: the value of its variable, else
/// `briefcase`.
pub fn get_briefcase_dir_name(env: &Environment) -> (name: String)
    ensures
        name@ == dir_name_of(env@),
{
    match env.lookup(dir_name_variable_name()) {
        Some(name) => name,
        None => "briefcase".to_owned(),
    }
}

/// The store's directory: the temporary directory, and below it the
/// directory of the store's name.
pub fn get_briefcase_dir(env: &Environment) -> (dir: StorePath)
    ensures
        dir@ == briefcase_dir_of(env@),
{
    let temp = get_temp_dir(env);
    let name = get_briefcase_dir_name(env);
    let dir = StorePath::new(temp.path.as_str()).join(name.as_str());
    assert(dir@ =~= seq![temp_path_of(env@), dir_name_of(env@)]);
    dir
}

} // verus!
