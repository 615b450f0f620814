//! The decisions of the command-line tool: what a new project holds, what
//! validation reports, how a build is invoked and where a package is published.
use vstd::prelude::*;
use crate::names::{
    ascii_lower, ascii_struct_name, lemma_ascii_struct_name_prefix, lowercase_of, snake_case,
    struct_name_text, text_lowercase, to_snake_case, to_struct_name,
};
use crate::templates::{
    app_lib_text, cargo_toml_text, generate_app_lib, generate_cargo_toml, generate_hook_lib,
    generate_plugin_lib, generate_readme, generate_theme_lib, hook_lib_text, plugin_lib_text,
    readme_text, theme_lib_text,
};
use crate::text::{all_ascii, owned, push_str, str_eq};

verus! {

/// The minimum RustPress version a project needs.
#[derive(Debug, Clone)]
pub struct RustPressMinVersion {
    /// Minimum version.
    pub min_version: String,
}

/// The contents of a project's `rustpress.json`.
#[derive(Debug, Clone)]
pub struct RustPressConfig {
    /// Project name.
    pub name: String,
    /// Project type: plugin, theme, app or hook.
    pub project_type: String,
    /// Project version.
    pub version: String,
    /// Path of the built library.
    pub main: String,
    /// SDK language.
    pub sdk: String,
    /// Required SDK version.
    pub sdk_version: String,
    /// Required RustPress version.
    pub rustpress: RustPressMinVersion,
}

/// The configuration of a new project: version `1.0.0`, the release build of
/// its crate as main file, the Rust SDK `>=1.0.0` and RustPress `1.0.0`.
pub open spec fn new_config_fields(config: RustPressConfig, name: Seq<char>, project_type: Seq<char>) -> bool {
    &&& config.name@ == name
    &&& config.project_type@ == project_type
    &&& config.version@ == "1.0.0"@
    &&& config.main@ == "target/release/lib"@ + snake_case(name) + ".so"@
    &&& config.sdk@ == "rust"@
    &&& config.sdk_version@ == ">=1.0.0"@
    &&& config.rustpress.min_version@ == "1.0.0"@
}

/// The `rustpress.json` configuration of a new project.
pub fn rustpress_config(name: &str, project_type: &str) -> (r: RustPressConfig)
    ensures
        new_config_fields(r, name@, project_type@),
{
    let crate_name = to_snake_case(name);
    let mut main = owned("target/release/lib");
    push_str(&mut main, crate_name.as_str());
    push_str(&mut main, ".so");
    RustPressConfig {
        name: owned(name),
        project_type: owned(project_type),
        version: owned("1.0.0"),
        main,
        sdk: owned("rust"),
        sdk_version: owned(">=1.0.0"),
        rustpress: RustPressMinVersion { min_version: owned("1.0.0") },
    }
}

/// The project types the tool creates.
pub open spec fn is_project_type(t: Seq<char>) -> bool {
    t == "plugin"@ || t == "theme"@ || t == "app"@ || t == "hook"@
}

/// The `src/lib.rs` of a new project of the given type. A hook project's
/// function is named after the struct name, lowercased, with `-` as `_`.
pub open spec fn lib_source_text(project_type: Seq<char>, name: Seq<char>) -> Seq<char> {
    let struct_name = struct_name_text(name);
    if project_type == "plugin"@ {
        plugin_lib_text(name, struct_name)
    } else if project_type == "theme"@ {
        theme_lib_text(name, struct_name)
    } else if project_type == "app"@ {
        app_lib_text(name, struct_name)
    } else {
        hook_lib_text(name, snake_case(text_lowercase(struct_name)))
    }
}

/// The `src/lib.rs` of a new project of the given type and ASCII name: as
/// [`lib_source_text`], with the ASCII struct name, whose lowercase form
/// names a hook project's function.
pub open spec fn ascii_lib_source_text(project_type: Seq<char>, name: Seq<char>) -> Seq<char> {
    let struct_name = ascii_struct_name(name);
    if project_type == "plugin"@ {
        plugin_lib_text(name, struct_name)
    } else if project_type == "theme"@ {
        theme_lib_text(name, struct_name)
    } else if project_type == "app"@ {
        app_lib_text(name, struct_name)
    } else {
        hook_lib_text(name, snake_case(struct_name.map_values(|c: char| ascii_lower(c))))
    }
}

/// The `src/lib.rs` of a new project of the given type.
pub fn project_lib_source(project_type: &str, name: &str) -> (r: String)
    requires
        is_project_type(project_type@),
    ensures
        r@ == lib_source_text(project_type@, name@),
        all_ascii(name@) ==> r@ == ascii_lib_source_text(project_type@, name@),
{
    let struct_name = to_struct_name(name);
    proof {
        if all_ascii(name@) {
            lemma_ascii_struct_name_prefix(name@, name@.len());
        }
    }
    if str_eq(project_type, "plugin") {
        generate_plugin_lib(name, struct_name.as_str())
    } else if str_eq(project_type, "theme") {
        generate_theme_lib(name, struct_name.as_str())
    } else if str_eq(project_type, "app") {
        generate_app_lib(name, struct_name.as_str())
    } else {
        let lower = lowercase_of(struct_name.as_str());
        let function_name = to_snake_case(lower.as_str());
        generate_hook_lib(name, function_name.as_str())
    }
}

/// The files of a new project.
pub struct ProjectFiles {
    /// `src/lib.rs`.
    pub lib_rs: String,
    /// `Cargo.toml`.
    pub cargo_toml: String,
    /// `README.md`.
    pub readme: String,
    /// The contents of `rustpress.json`.
    pub config: RustPressConfig,
    /// `LICENSE`.
    pub license: String,
    /// `.gitignore`.
    pub gitignore: String,
}

/// The files that creating a project of the given type and name writes.
pub fn scaffold_project(project_type: &str, name: &str) -> (r: ProjectFiles)
    requires
        is_project_type(project_type@),
    ensures
        r.lib_rs@ == lib_source_text(project_type@, name@),
        all_ascii(name@) ==> r.lib_rs@ == ascii_lib_source_text(project_type@, name@),
        r.cargo_toml@ == cargo_toml_text(snake_case(name@), project_type@),
        r.readme@ == readme_text(name@, snake_case(name@), project_type@),
        new_config_fields(r.config, name@, project_type@),
        r.license@ == "MIT License\n\nCopyright (c) 2024\n"@,
        r.gitignore@ == "/target\nCargo.lock\n*.swp\n*.swo\n.env\n"@,
{
    let struct_name = to_struct_name(name);
    ProjectFiles {
        lib_rs: project_lib_source(project_type, name),
        cargo_toml: generate_cargo_toml(name, project_type),
        readme: generate_readme(name, struct_name.as_str(), project_type),
        config: rustpress_config(name, project_type),
        license: owned("MIT License\n\nCopyright (c) 2024\n"),
        gitignore: owned("/target\nCargo.lock\n*.swp\n*.swo\n.env\n"),
    }
}

/// The outcome of validating a project directory.
pub struct ValidationReport {
    /// Problems that fail the validation, in the order found.
    pub errors: Vec<String>,
    /// Problems that do not fail it.
    pub warnings: Vec<String>,
}

/// The errors that validation finds in `rustpress.json`: each empty
/// required field, or the parse error.
pub open spec fn config_errors(config: Result<&RustPressConfig, &str>) -> Seq<Seq<char>> {
    match config {
        Ok(c) => {
            (if c.name@.len() == 0 {
                seq!["Missing required field: name"@]
            } else {
                Seq::empty()
            }) + (if c.project_type@.len() == 0 {
                seq!["Missing required field: type"@]
            } else {
                Seq::empty()
            }) + (if c.version@.len() == 0 {
                seq!["Missing required field: version"@]
            } else {
                Seq::empty()
            })
        },
        Err(e) => seq!["Invalid JSON in rustpress.json: "@ + e@],
    }
}

/// All errors of a validation: those of the configuration, then a missing
/// `Cargo.toml`, then a missing `src/lib.rs`.
pub open spec fn validation_errors(config: Result<&RustPressConfig, &str>, has_cargo_toml: bool, has_lib_rs: bool) -> Seq<Seq<char>> {
    config_errors(config) + (if has_cargo_toml {
        Seq::empty()
    } else {
        seq!["Missing Cargo.toml"@]
    }) + (if has_lib_rs {
        Seq::empty()
    } else {
        seq!["Missing src/lib.rs"@]
    })
}

proof fn lemma_concat_contains(a: Seq<Seq<char>>, b: Seq<Seq<char>>, x: Seq<char>)
    ensures
        (a + b).contains(x) <==> a.contains(x) || b.contains(x),
{
    if a.contains(x) {
        let i = choose|i: int| 0 <= i < a.len() && a[i] == x;
        assert((a + b)[i] == x);
    }
    if b.contains(x) {
        let i = choose|i: int| 0 <= i < b.len() && b[i] == x;
        assert((a + b)[a.len() + i] == x);
    }
    if (a + b).contains(x) {
        let i = choose|i: int| 0 <= i < (a + b).len() && (a + b)[i] == x;
        if i < a.len() {
            assert(a[i] == x);
        } else {
            assert(b[i - a.len()] == x);
        }
    }
}

proof fn lemma_optional_contains(cond: bool, msg: Seq<char>, x: Seq<char>)
    ensures
        (if cond {
            seq![msg]
        } else {
            Seq::<Seq<char>>::empty()
        }).contains(x) <==> cond && msg == x,
{
    if cond && msg == x {
        assert(seq![msg][0] == x);
    }
}

/// Validation reports each missing field of `rustpress.json` exactly when
/// the file parsed and that field is empty, whatever the other fields and
/// files; each missing file exactly when it is missing; and a file that did
/// not parse by its parse error, first.
pub proof fn lemma_validation_errors(
    config: Result<&RustPressConfig, &str>,
    has_cargo_toml: bool,
    has_lib_rs: bool,
)
    ensures
        validation_errors(config, has_cargo_toml, has_lib_rs).contains(
            "Missing required field: name"@,
        ) <==> (config matches Ok(c) && c.name@.len() == 0),
        validation_errors(config, has_cargo_toml, has_lib_rs).contains(
            "Missing required field: type"@,
        ) <==> (config matches Ok(c) && c.project_type@.len() == 0),
        validation_errors(config, has_cargo_toml, has_lib_rs).contains(
            "Missing required field: version"@,
        ) <==> (config matches Ok(c) && c.version@.len() == 0),
        validation_errors(config, has_cargo_toml, has_lib_rs).contains("Missing Cargo.toml"@)
            <==> !has_cargo_toml,
        validation_errors(config, has_cargo_toml, has_lib_rs).contains("Missing src/lib.rs"@)
            <==> !has_lib_rs,
        config matches Err(e) ==> validation_errors(config, has_cargo_toml, has_lib_rs)[0]
            == "Invalid JSON in rustpress.json: "@ + e@,
        (config is Ok && has_cargo_toml && has_lib_rs) ==> (validation_errors(
            config,
            has_cargo_toml,
            has_lib_rs,
        ).len() == 0 <==> (config matches Ok(c) && c.name@.len() > 0 && c.project_type@.len() > 0
            && c.version@.len() > 0)),
{
    reveal_strlit("Missing required field: name");
    reveal_strlit("Missing required field: type");
    reveal_strlit("Missing required field: version");
    reveal_strlit("Missing Cargo.toml");
    reveal_strlit("Missing src/lib.rs");
    reveal_strlit("Invalid JSON in rustpress.json: ");
    let name_msg = "Missing required field: name"@;
    let type_msg = "Missing required field: type"@;
    let version_msg = "Missing required field: version"@;
    let cargo_msg = "Missing Cargo.toml"@;
    let lib_msg = "Missing src/lib.rs"@;
    let msgs = seq![name_msg, type_msg, version_msg, cargo_msg, lib_msg];
    assert(name_msg[24] != type_msg[24]);
    assert(name_msg.len() != version_msg.len() && type_msg.len() != version_msg.len());
    assert(name_msg.len() != cargo_msg.len() && type_msg.len() != cargo_msg.len()
        && version_msg.len() != cargo_msg.len());
    assert(name_msg[8] != lib_msg[8] && type_msg[8] != lib_msg[8] && version_msg[8] != lib_msg[8]
        && cargo_msg[8] != lib_msg[8]);
    let files = (if has_cargo_toml {
        Seq::empty()
    } else {
        seq![cargo_msg]
    });
    let libs = (if has_lib_rs {
        Seq::empty()
    } else {
        seq![lib_msg]
    });
    assert forall|j: int| 0 <= j < 5 implies {
        let x = #[trigger] msgs[j];
        &&& validation_errors(config, has_cargo_toml, has_lib_rs).contains(x) <==> (
            config_errors(config).contains(x) || files.contains(x) || libs.contains(x))
        &&& files.contains(x) <==> (!has_cargo_toml && x == cargo_msg)
        &&& libs.contains(x) <==> (!has_lib_rs && x == lib_msg)
    } by {
        let x = msgs[j];
        lemma_concat_contains(config_errors(config) + files, libs, x);
        lemma_concat_contains(config_errors(config), files, x);
        lemma_optional_contains(!has_cargo_toml, cargo_msg, x);
        lemma_optional_contains(!has_lib_rs, lib_msg, x);
    }
    assert(msgs[0] == name_msg && msgs[1] == type_msg && msgs[2] == version_msg && msgs[3]
        == cargo_msg && msgs[4] == lib_msg);
    match config {
        Ok(c) => {
            let a = (if c.name@.len() == 0 {
                seq![name_msg]
            } else {
                Seq::empty()
            });
            let b = (if c.project_type@.len() == 0 {
                seq![type_msg]
            } else {
                Seq::empty()
            });
            let d = (if c.version@.len() == 0 {
                seq![version_msg]
            } else {
                Seq::empty()
            });
            assert forall|j: int| 0 <= j < 5 implies (#[trigger] msgs[j] == msgs[j]) && (
            config_errors(config).contains(msgs[j]) <==> ((c.name@.len() == 0 && msgs[j] == name_msg)
                || (c.project_type@.len() == 0 && msgs[j] == type_msg) || (c.version@.len() == 0
                && msgs[j] == version_msg))) by {
                let x = msgs[j];
                lemma_concat_contains(a + b, d, x);
                lemma_concat_contains(a, b, x);
                lemma_optional_contains(c.name@.len() == 0, name_msg, x);
                lemma_optional_contains(c.project_type@.len() == 0, type_msg, x);
                lemma_optional_contains(c.version@.len() == 0, version_msg, x);
            }
        },
        Err(e) => {
            let m = "Invalid JSON in rustpress.json: "@ + e@;
            assert(m[0] == 'I');
            assert forall|j: int| 0 <= j < 5 implies !config_errors(config).contains(#[trigger] msgs[j]) by {
                assert(msgs[j][0] == 'M');
                if config_errors(config).contains(msgs[j]) {
                    assert(config_errors(config)[0] == msgs[j]);
                }
            }
        },
    }
}

/// The only warning of a validation is a missing `README.md`, given exactly
/// when it is missing.
pub proof fn lemma_validation_warnings(has_readme: bool)
    ensures
        validation_warnings(has_readme).len() <= 1,
        validation_warnings(has_readme).contains("Missing README.md"@) <==> !has_readme,
{
    lemma_optional_contains(!has_readme, "Missing README.md"@, "Missing README.md"@);
    assert(validation_warnings(has_readme) =~= (if !has_readme {
        seq!["Missing README.md"@]
    } else {
        Seq::<Seq<char>>::empty()
    }));
}

/// The warnings of a validation: a missing `README.md`.
pub open spec fn validation_warnings(has_readme: bool) -> Seq<Seq<char>> {
    if has_readme {
        Seq::empty()
    } else {
        seq!["Missing README.md"@]
    }
}

fn push_message(v: &mut Vec<String>, msg: &str)
    ensures
        final(v).deep_view() == old(v).deep_view().push(msg@),
{
    v.push(owned(msg));
    assert(v.deep_view() =~= old(v).deep_view().push(msg@));
}

/// Validates a project: `config` is the parsed `rustpress.json` or the
/// text of the parse error; the flags tell which files exist.
pub fn validation_report(
    config: Result<&RustPressConfig, &str>,
    has_cargo_toml: bool,
    has_lib_rs: bool,
    has_readme: bool,
) -> (r: ValidationReport)
    ensures
        r.errors.deep_view() == validation_errors(config, has_cargo_toml, has_lib_rs),
        r.warnings.deep_view() == validation_warnings(has_readme),
{
    let mut errors: Vec<String> = Vec::new();
    let mut warnings: Vec<String> = Vec::new();
    assert(errors.deep_view() =~= Seq::<Seq<char>>::empty());
    match config {
        Ok(c) => {
            if c.name.as_str().is_empty() {
                push_message(&mut errors, "Missing required field: name");
            }
            if c.project_type.as_str().is_empty() {
                push_message(&mut errors, "Missing required field: type");
            }
            if c.version.as_str().is_empty() {
                push_message(&mut errors, "Missing required field: version");
            }
        },
        Err(e) => {
            let mut msg = owned("Invalid JSON in rustpress.json: ");
            push_str(&mut msg, e);
            errors.push(msg);
        },
    }
    assert(errors.deep_view() =~= config_errors(config));
    if !has_cargo_toml {
        push_message(&mut errors, "Missing Cargo.toml");
    }
    if !has_lib_rs {
        push_message(&mut errors, "Missing src/lib.rs");
    }
    if !has_readme {
        push_message(&mut warnings, "Missing README.md");
    }
    assert(errors.deep_view() =~= validation_errors(config, has_cargo_toml, has_lib_rs));
    assert(warnings.deep_view() =~= validation_warnings(has_readme));
    ValidationReport { errors, warnings }
}

/// The arguments of `cargo` for a build: `build`, and `--release` for a
/// release build.
pub fn cargo_build_args(release: bool) -> (r: Vec<String>)
    ensures
        r.deep_view() == if release {
            seq!["build"@, "--release"@]
        } else {
            seq!["build"@]
        },
{
    let mut r: Vec<String> = Vec::new();
    push_message(&mut r, "build");
    if release {
        push_message(&mut r, "--release");
    }
    proof {
        if release {
            assert(r.deep_view() =~= seq!["build"@, "--release"@]);
        } else {
            assert(r.deep_view() =~= seq!["build"@]);
        }
    }
    r
}

/// Where a build puts its output.
pub fn build_output_dir(release: bool) -> (r: &'static str)
    ensures
        r@ == if release {
            "target/release/"@
        } else {
            "target/debug/"@
        },
{
    if release {
        "target/release/"
    } else {
        "target/debug/"
    }
}

/// The marketplace page of a published project.
pub fn marketplace_url(project_type: &str, name: &str) -> (r: String)
    ensures
        r@ == "https://marketplace.rustpress.dev/"@ + project_type@ + "s/"@ + name@,
{
    let mut r = owned("https://marketplace.rustpress.dev/");
    push_str(&mut r, project_type);
    push_str(&mut r, "s/");
    push_str(&mut r, name);
    r
}

} // verus!
