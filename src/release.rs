//! Tenant releases: the key runtimes are shared under, and the scripts a new
//! runtime evaluates before it starts.
use vstd::prelude::*;
use vstd::string::*;

verus! {

/// What the release lookup reports for a hostname.
pub struct Release {
    /// Human name of the app.
    pub app: String,
    pub app_id: String,
    pub version: String,
    /// The app's own source code.
    pub source: String,
    /// Names of the libraries the app asks to be loaded before its code.
    pub libs: Option<Vec<String>>,
    /// The app's merged configuration, as a script expression.
    pub config: String,
}

/// A library as fetched: its source, or `None` when it could not be found.
pub struct LibSource {
    pub name: String,
    pub source: Option<String>,
}

/// A script to evaluate, under a label that names it in diagnostics.
pub struct Script {
    pub label: String,
    pub source: String,
}

impl View for Script {
    type V = (Seq<char>, Seq<char>);

    open spec fn view(&self) -> (Seq<char>, Seq<char>) {
        (self.label@, self.source@)
    }
}

/// The scripts a new runtime evaluates, in order, and the libraries that were
/// asked for but not found.
pub struct BootPlan {
    pub scripts: Vec<Script>,
    pub missing_libs: Vec<String>,
}

/// The key that runtimes are shared under: app id and version.
pub open spec fn release_key(app_id: Seq<char>, version: Seq<char>) -> Seq<char> {
    app_id + ":"@ + version
}

/// Computes the key of app `app_id` at version `version`.
pub fn cache_key(app_id: &str, version: &str) -> (r: String)
    ensures
        r@ == release_key(app_id@, version@),
{
    let mut r = String::from_str(app_id);
    r.append(":");
    r.append(version);
    r
}

/// The script that publishes the app's configuration and version.
pub open spec fn config_script(config: Seq<char>, version: Seq<char>) -> (Seq<char>, Seq<char>) {
    (
        "<app config>"@,
        "window.fly.app = { config: "@ + config + ", version: "@ + version + " };"@,
    )
}

/// The label of library `name`.
pub open spec fn lib_label(name: Seq<char>) -> Seq<char> {
    "<lib:"@ + name + ">"@
}

/// The scripts of the libraries that were found, in the order given.
pub open spec fn lib_scripts(libs: Seq<LibSource>) -> Seq<(Seq<char>, Seq<char>)>
    decreases libs.len(),
{
    if libs.len() == 0 {
        Seq::empty()
    } else {
        let rest = lib_scripts(libs.drop_last());
        match libs.last().source {
            Some(src) => rest.push((lib_label(libs.last().name@), src@)),
            None => rest,
        }
    }
}

/// The names of the libraries that were not found, in the order given.
pub open spec fn missing_names(libs: Seq<LibSource>) -> Seq<Seq<char>>
    decreases libs.len(),
{
    if libs.len() == 0 {
        Seq::empty()
    } else {
        let rest = missing_names(libs.drop_last());
        match libs.last().source {
            Some(_) => rest,
            None => rest.push(libs.last().name@),
        }
    }
}

/// The scripts a runtime of `rel` evaluates, given the fetched libraries:
/// configuration first, then each library found, then the app.
pub open spec fn boot_scripts(rel: Release, libs: Seq<LibSource>) -> Seq<(Seq<char>, Seq<char>)> {
    seq![config_script(rel.config@, rel.version@)] + lib_scripts(libs) + seq![
        ("app.js"@, rel.source@),
    ]
}

/// Plans how a new runtime of `rel` is brought up. A library that was not
/// found is left out and reported, and does not stop the app from loading.
pub fn boot_plan(rel: &Release, libs: &Vec<LibSource>) -> (r: BootPlan)
    ensures
        r.scripts@.map_values(|s: Script| s@) == boot_scripts(*rel, libs@),
        r.missing_libs@.map_values(|s: String| s@) == missing_names(libs@),
{
    let mut source = String::from_str("window.fly.app = { config: ");
    source.append(rel.config.as_str());
    source.append(", version: ");
    source.append(rel.version.as_str());
    source.append(" };");
    let mut scripts: Vec<Script> = Vec::new();
    scripts.push(Script { label: String::from_str("<app config>"), source });
    let mut missing_libs: Vec<String> = Vec::new();
    let mut i: usize = 0;
    while i < libs.len()
        invariant
            i <= libs@.len(),
            scripts@.map_values(|s: Script| s@) == seq![config_script(rel.config@, rel.version@)]
                + lib_scripts(libs@.subrange(0, i as int)),
            missing_libs@.map_values(|s: String| s@) == missing_names(libs@.subrange(0, i as int)),
        decreases libs@.len() - i,
    {
        let ghost done = libs@.subrange(0, i as int);
        let ghost next = libs@.subrange(0, i as int + 1);
        assert(next.drop_last() =~= done);
        assert(next.last() == libs@[i as int]);
        let lib = &libs[i];
        match &lib.source {
            Some(src) => {
                let mut label = String::from_str("<lib:");
                label.append(lib.name.as_str());
                label.append(">");
                let ghost before = scripts@;
                scripts.push(Script { label, source: src.clone() });
                assert(lib_scripts(next) == lib_scripts(done).push(
                    (lib_label(lib.name@), src@),
                ));
                assert(scripts@.map_values(|s: Script| s@) =~= before.map_values(|s: Script| s@).push(
                    (lib_label(lib.name@), src@),
                ));
                assert(scripts@.map_values(|s: Script| s@) =~= seq![
                    config_script(rel.config@, rel.version@),
                ] + lib_scripts(next));
            },
            None => {
                missing_libs.push(lib.name.clone());
                assert(missing_libs@.map_values(|s: String| s@) =~= missing_names(next));
            },
        }
        i += 1;
    }
    assert(libs@.subrange(0, libs@.len() as int) =~= libs@);
    scripts.push(Script { label: String::from_str("app.js"), source: rel.source.clone() });
    assert(scripts@.map_values(|s: Script| s@) =~= boot_scripts(*rel, libs@));
    BootPlan { scripts, missing_libs }
}

} // verus!
