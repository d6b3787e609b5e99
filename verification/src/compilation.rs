//! Compile jobs for Cargo projects: the arguments and flags a job hands to
//! `cargo build`, and the selection of build artifacts from its output.
//!
//! Spawning Cargo and reading its JSON messages happen outside this crate;
//! what they decide is computed here.

use vstd::prelude::*;

use crate::text::str_eq;

verus! {

/// The views of a sequence of strings.
pub open spec fn string_views(v: Seq<String>) -> Seq<Seq<char>> {
    v.map_values(|s: String| s@)
}

/// `parts` joined with `sep` between neighbours (as `[String]::join`).
pub open spec fn joined(parts: Seq<Seq<char>>, sep: Seq<char>) -> Seq<char>
    decreases parts.len(),
{
    if parts.len() == 0 {
        Seq::empty()
    } else if parts.len() == 1 {
        parts[0]
    } else {
        joined(parts.drop_last(), sep) + sep + parts.last()
    }
}

/// The parent of a path, as `std::path::Path::parent` gives it.
pub uninterp spec fn std_path_parent(path: Seq<char>) -> Option<Seq<char>>;

/// The final component of a path, as `std::path::Path::file_name` gives it.
pub uninterp spec fn std_path_file_name(path: Seq<char>) -> Option<Seq<char>>;

/// The extension of a path, as `std::path::Path::extension` gives it.
pub uninterp spec fn std_path_extension(path: Seq<char>) -> Option<Seq<char>>;

/// Calls `std::path::Path::parent`; the result is named `std_path_parent`.
/// The parts of a path given as a string are strings themselves, so their
/// conversion back does not fail.
#[verifier::external_body]
fn path_parent(path: &str) -> (r: Option<String>)
    ensures
        r is Some <==> std_path_parent(path@) is Some,
        r is Some ==> r.unwrap()@ == std_path_parent(path@).unwrap(),
{
    match std::path::Path::new(path).parent() {
        Some(part) => match part.to_str() {
            Some(text) => Some(text.to_string()),
            None => None,
        },
        None => None,
    }
}

/// Calls `std::path::Path::file_name`; the result is named `std_path_file_name`.
#[verifier::external_body]
fn path_file_name(path: &str) -> (r: Option<String>)
    ensures
        r is Some <==> std_path_file_name(path@) is Some,
        r is Some ==> r.unwrap()@ == std_path_file_name(path@).unwrap(),
{
    match std::path::Path::new(path).file_name() {
        Some(part) => match part.to_str() {
            Some(text) => Some(text.to_string()),
            None => None,
        },
        None => None,
    }
}

/// Calls `std::path::Path::extension`; the result is named `std_path_extension`.
#[verifier::external_body]
fn path_extension(path: &str) -> (r: Option<String>)
    ensures
        r is Some <==> std_path_extension(path@) is Some,
        r is Some ==> r.unwrap()@ == std_path_extension(path@).unwrap(),
{
    match std::path::Path::new(path).extension() {
        Some(part) => match part.to_str() {
            Some(text) => Some(text.to_string()),
            None => None,
        },
        None => None,
    }
}

/// The name of the directory that holds `path`, if there is one.
pub open spec fn parent_dir_name(path: Seq<char>) -> Option<Seq<char>> {
    match std_path_parent(path) {
        Some(p) => std_path_file_name(p),
        None => None,
    }
}

/// Whether a file Cargo reported is a final artifact: it does not lie in a
/// `deps` directory.
pub open spec fn is_final_artifact(path: Seq<char>) -> bool {
    parent_dir_name(path) != Some("deps"@)
}

/// The final artifacts among the files of a list of compiler-artifact messages,
/// in the order reported.
pub open spec fn final_artifacts(groups: Seq<Seq<Seq<char>>>) -> Seq<Seq<char>>
    decreases groups.len(),
{
    if groups.len() == 0 {
        Seq::empty()
    } else {
        final_artifacts(groups.drop_last()) + groups.last().filter(|p: Seq<char>| is_final_artifact(p))
    }
}

/// The additional rustflags combined with those of the environment.
pub open spec fn combined_rustflags(additional: Option<Seq<char>>, env: Seq<char>) -> Seq<char> {
    match additional {
        Some(a) => if env.len() == 0 { a } else { env + " "@ + a },
        None => env,
    }
}

/// Joins `parts` with `sep`.
pub fn join_strings(parts: &Vec<String>, sep: &str) -> (r: String)
    ensures
        r@ == joined(string_views(parts@), sep@),
{
    let ghost views = string_views(parts@);
    let mut acc = String::new();
    let mut i: usize = 0;
    while i < parts.len()
        invariant
            i <= parts.len(),
            views == string_views(parts@),
            acc@ == joined(views.take(i as int), sep@),
        decreases parts.len() - i,
    {
        assert(views.take(i as int + 1).drop_last() =~= views.take(i as int));
        if i > 0 {
            acc.append(sep);
        }
        acc.append(parts[i].as_str());
        proof {
            assert(views.take(i as int + 1).last() == parts@[i as int]@);
            if i == 0 {
                assert(views.take(1) =~= seq![parts@[0]@]);
            }
        }
        i = i + 1;
    }
    assert(views.take(parts.len() as int) =~= views);
    acc
}

/// Represents a job to compile a Cargo project.
pub struct CompileJob<'a> {
    pub manifest_path: &'a str,
    pub features: Vec<String>,
    pub rustflags: Option<String>,
}

impl<'a> CompileJob<'a> {
    /// Creates a new compile job with the given manifest path, optional
    /// features, and optional *additional* rustflags.
    pub fn new(manifest_path: &'a str, features: Option<Vec<String>>, rustflags: Option<String>) -> (r: Self)
        ensures
            r.manifest_path == manifest_path,
            r.features@ == (match features {
                Some(f) => f@,
                None => Seq::<String>::empty(),
            }),
            r.rustflags == rustflags,
    {
        let features = match features {
            Some(f) => f,
            None => Vec::new(),
        };
        CompileJob { manifest_path, features, rustflags }
    }

    /// Adds or replaces the additional rustflags for the compilation.
    pub fn with_rustflags(self, rustflags: String) -> (r: Self)
        ensures
            r.manifest_path == self.manifest_path,
            r.features == self.features,
            r.rustflags == Some(rustflags),
    {
        let mut s = self;
        s.rustflags = Some(rustflags);
        s
    }

    /// The configured features followed by `extra_features`, joined by commas.
    pub fn features_arg(&self, extra_features: Vec<String>) -> (r: String)
        ensures
            r@ == joined(string_views(self.features@ + extra_features@), ","@),
    {
        let mut features = self.features.clone();
        let ghost start = features@;
        assert(string_views(features@) == string_views(self.features@)) by {
            assert forall|k: int| 0 <= k < features@.len() implies features@[k]@ == self.features@[k]@ by {
                assert(cloned::<String>(self.features@[k], features@[k]));
            }
            assert(string_views(features@) =~= string_views(self.features@));
        }
        let mut i: usize = 0;
        while i < extra_features.len()
            invariant
                i <= extra_features.len(),
                string_views(features@) == string_views(self.features@ + extra_features@.take(i as int)),
            decreases extra_features.len() - i,
        {
            let f = extra_features[i].clone();
            let ghost old_f = features@;
            features.push(f);
            proof {
                assert(string_views(features@) =~= string_views(old_f).push(extra_features@[i as int]@));
                assert(string_views(self.features@ + extra_features@.take(i as int + 1)) =~= string_views(
                    self.features@ + extra_features@.take(i as int),
                ).push(extra_features@[i as int]@));
                assert(self.features@ + extra_features@.take(i as int + 1) =~= (self.features@
                    + extra_features@.take(i as int)).push(extra_features@[i as int]));
                assert(string_views(features@) =~= string_views(self.features@ + extra_features@.take(i as int + 1)));
            }
            i = i + 1;
        }
        assert(extra_features@.take(extra_features.len() as int) =~= extra_features@);
        join_strings(&features, ",")
    }

    /// The arguments of the `cargo` invocation that builds this job for
    /// `target` with `extra_features` added, into the (temporary) target
    /// directory `target_dir`.
    pub fn build_args(&self, target: &str, extra_features: Vec<String>, target_dir: &str) -> (r: Vec<String>)
        ensures
            string_views(r@) == seq![
                "build"@,
                "--manifest-path"@,
                self.manifest_path@,
                "--target"@,
                target@,
                "--features"@,
                joined(string_views(self.features@ + extra_features@), ","@),
                "--lib"@,
                "--release"@,
                "--message-format=json"@,
                "--target-dir"@,
                target_dir@,
            ],
    {
        let features_str = self.features_arg(extra_features);
        let mut args: Vec<String> = Vec::new();
        args.push(String::from_str("build"));
        args.push(String::from_str("--manifest-path"));
        args.push(String::from_str(self.manifest_path));
        args.push(String::from_str("--target"));
        args.push(String::from_str(target));
        args.push(String::from_str("--features"));
        args.push(features_str);
        args.push(String::from_str("--lib"));
        args.push(String::from_str("--release"));
        args.push(String::from_str("--message-format=json"));
        args.push(String::from_str("--target-dir"));
        args.push(String::from_str(target_dir));
        assert(string_views(args@) =~= seq![
            "build"@,
            "--manifest-path"@,
            self.manifest_path@,
            "--target"@,
            target@,
            "--features"@,
            joined(string_views(self.features@ + extra_features@), ","@),
            "--lib"@,
            "--release"@,
            "--message-format=json"@,
            "--target-dir"@,
            target_dir@,
        ]);
        args
    }

    /// The rustflags to build with: those of the environment (`env_rustflags`,
    /// empty when unset) followed by this job's additional ones.
    pub fn effective_rustflags(&self, env_rustflags: String) -> (r: String)
        ensures
            r@ == combined_rustflags(
                match self.rustflags {
                    Some(a) => Some(a@),
                    None => None,
                },
                env_rustflags@,
            ),
    {
        match &self.rustflags {
            Some(additional) => {
                if env_rustflags.as_str().unicode_len() == 0 {
                    additional.clone()
                } else {
                    let with_space = env_rustflags.concat(" ");
                    with_space.concat(additional.as_str())
                }
            },
            None => env_rustflags,
        }
    }
}

/// Results of a compilation job.
pub struct CompilationResults {
    pub artifacts: Vec<String>,
}

impl CompilationResults {
    /// Collects the final artifacts out of the file lists of Cargo's
    /// compiler-artifact messages, in the order reported; files in a `deps`
    /// directory are left out.
    pub fn from_artifact_messages(filename_groups: &Vec<Vec<String>>) -> (r: CompilationResults)
        ensures
            string_views(r.artifacts@) == final_artifacts(
                filename_groups@.map_values(|g: Vec<String>| string_views(g@)),
            ),
    {
        let ghost groups = filename_groups@.map_values(|g: Vec<String>| string_views(g@));
        let mut artifacts: Vec<String> = Vec::new();
        let mut i: usize = 0;
        while i < filename_groups.len()
            invariant
                i <= filename_groups.len(),
                groups == filename_groups@.map_values(|g: Vec<String>| string_views(g@)),
                string_views(artifacts@) == final_artifacts(groups.take(i as int)),
            decreases filename_groups.len() - i,
        {
            let group = &filename_groups[i];
            let ghost before = string_views(artifacts@);
            let mut j: usize = 0;
            while j < group.len()
                invariant
                    j <= group.len(),
                    group == filename_groups@[i as int],
                    string_views(artifacts@) == before + string_views(group@).take(j as int).filter(
                        |p: Seq<char>| is_final_artifact(p),
                    ),
                decreases group.len() - j,
            {
                let path = &group[j];
                let keep = match path_parent(path.as_str()) {
                    Some(parent) => match path_file_name(parent.as_str()) {
                        Some(name) => !str_eq(name.as_str(), "deps"),
                        None => true,
                    },
                    None => true,
                };
                proof {
                    reveal_strlit("deps");
                    let s = string_views(group@);
                    assert(s.take(j as int + 1).drop_last() =~= s.take(j as int));
                    assert(keep == is_final_artifact(s[j as int]));
                }
                let ghost old_a = artifacts@;
                if keep {
                    artifacts.push(path.clone());
                    assert(string_views(artifacts@) =~= string_views(old_a).push(path@));
                }
                proof {
                    let s = string_views(group@);
                    assert(s.take(j as int + 1).last() == s[j as int]);
                    s.take(j as int).lemma_filter_push(s[j as int], |p: Seq<char>| is_final_artifact(p));
                    assert(s.take(j as int).push(s[j as int]) =~= s.take(j as int + 1));
                    assert(string_views(artifacts@) =~= before + s.take(j as int + 1).filter(
                        |p: Seq<char>| is_final_artifact(p),
                    ));
                }
                j = j + 1;
            }
            proof {
                assert(string_views(group@).take(group.len() as int) =~= string_views(group@));
                assert(groups.take(i as int + 1).drop_last() =~= groups.take(i as int));
                assert(groups.take(i as int + 1).last() == string_views(group@));
            }
            i = i + 1;
        }
        assert(groups.take(filename_groups.len() as int) =~= groups);
        CompilationResults { artifacts }
    }

    /// Returns the paths of the build artifacts.
    pub fn artifacts(&self) -> (r: &[String])
        ensures
            r@ == self.artifacts@,
    {
        self.artifacts.as_slice()
    }

    /// The first artifact whose extension is `extension`, if any.
    pub fn get_artifact_by_extension(&self, extension: &str) -> (r: Option<String>)
        ensures
            match r {
                Some(p) => exists|i: int|
                    0 <= i < self.artifacts@.len() && p@ == self.artifacts@[i]@
                        && std_path_extension(self.artifacts@[i]@) == Some(extension@)
                        && forall|k: int| 0 <= k < i ==> std_path_extension(
                            #[trigger] self.artifacts@[k]@,
                        ) != Some(extension@),
                None => forall|k: int| 0 <= k < self.artifacts@.len() ==> std_path_extension(
                    #[trigger] self.artifacts@[k]@,
                ) != Some(extension@),
            },
    {
        let mut i: usize = 0;
        while i < self.artifacts.len()
            invariant
                i <= self.artifacts.len(),
                forall|k: int| 0 <= k < i ==> std_path_extension(#[trigger] self.artifacts@[k]@) != Some(extension@),
            decreases self.artifacts.len() - i,
        {
            let path = &self.artifacts[i];
            let matched = match path_extension(path.as_str()) {
                Some(ext) => str_eq(ext.as_str(), extension),
                None => false,
            };
            if matched {
                let found = path.clone();
                assert(found@ == self.artifacts@[i as int]@);
                return Some(found);
            }
            i = i + 1;
        }
        None
    }
}

/// Whether one of the names is `name`.
pub open spec fn names_contain(names: Seq<String>, name: Seq<char>) -> bool {
    exists|i: int| 0 <= i < names.len() && names[i]@ == name
}

/// Whether one of the names equals `name`.
fn contains_name(names: &Vec<String>, name: &str) -> (r: bool)
    ensures
        r == names_contain(names@, name@),
{
    let mut i: usize = 0;
    while i < names.len()
        invariant
            i <= names@.len(),
            forall|k: int| 0 <= k < i ==> names@[k]@ != name@,
        decreases names@.len() - i,
    {
        if str_eq(names[i].as_str(), name) {
            return true;
        }
        i += 1;
    }
    false
}

/// The features that make a contract's build produce its schema: the ABI
/// generator of the SDK and of the macros, for those of the two that the
/// package depends on directly.
pub fn abi_generator_features(dependencies: &Vec<String>) -> (r: Vec<String>)
    ensures
        string_views(r@) == (if names_contain(dependencies@, "casper-sdk"@) {
            seq!["casper-sdk/__abi_generator"@]
        } else {
            Seq::empty()
        }) + (if names_contain(dependencies@, "casper-macros"@) {
            seq!["casper-macros/__abi_generator"@]
        } else {
            Seq::empty()
        }),
{
    let mut features: Vec<String> = Vec::new();
    if contains_name(dependencies, "casper-sdk") {
        features.push(String::from_str("casper-sdk/__abi_generator"));
    }
    let ghost first = string_views(features@);
    if contains_name(dependencies, "casper-macros") {
        features.push(String::from_str("casper-macros/__abi_generator"));
    }
    proof {
        assert(string_views(features@) =~= first + (if names_contain(dependencies@, "casper-macros"@) {
            seq!["casper-macros/__abi_generator"@]
        } else {
            Seq::empty()
        }));
        assert(first =~= (if names_contain(dependencies@, "casper-sdk"@) {
            seq!["casper-sdk/__abi_generator"@]
        } else {
            Seq::<Seq<char>>::empty()
        }));
    }
    features
}

} // verus!
