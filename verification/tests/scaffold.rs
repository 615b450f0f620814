//! The project scaffolding of the command-line tool.

use rustpress_sdk::{
    build_output_dir, cargo_build_args, generate_app_lib, generate_cargo_toml, generate_hook_lib,
    generate_plugin_lib, generate_readme, generate_theme_lib, marketplace_url, project_lib_source,
    rustpress_config, scaffold_project, to_snake_case, to_struct_name, validation_report,
};

fn expected_plugin_lib(name: &str, struct_name: &str) -> String {
    format!(
        r#"//! {name} - A RustPress Plugin
//!
//! This plugin provides custom functionality for RustPress.

use rustpress_sdk::{{
    BasePlugin, HookContext, HookArgs, PluginConfig,
    async_trait::async_trait,
    Result,
}};
use std::sync::Arc;

/// {struct_name} plugin implementation.
pub struct {struct_name} {{
    id: String,
    config: PluginConfig,
}}

impl {struct_name} {{
    /// Create a new instance of the plugin.
    pub fn new() -> Self {{
        Self {{
            id: "{name}".to_string(),
            config: PluginConfig {{
                name: "{struct_name}".to_string(),
                version: "1.0.0".to_string(),
                description: "A custom RustPress plugin".to_string(),
                ..Default::default()
            }},
        }}
    }}
}}

impl Default for {struct_name} {{
    fn default() -> Self {{
        Self::new()
    }}
}}

#[async_trait]
impl BasePlugin for {struct_name} {{
    fn id(&self) -> &str {{
        &self.id
    }}

    fn config(&self) -> &PluginConfig {{
        &self.config
    }}

    async fn on_activate(&mut self, context: Arc<HookContext>) -> Result<()> {{
        tracing::info!("Plugin activated");

        // Register hooks
        self.register_hook("content:before_save", |content| {{
            Box::pin(async move {{
                // Process content before saving
                Ok(content)
            }})
        }});

        Ok(())
    }}

    async fn on_deactivate(&mut self) -> Result<()> {{
        tracing::info!("Plugin deactivated");
        Ok(())
    }}
}}

/// Create the plugin instance.
pub fn create_plugin() -> Box<dyn BasePlugin + Send + Sync> {{
    Box::new({struct_name}::new())
}}

#[cfg(test)]
mod tests {{
    use super::*;

    #[test]
    fn test_plugin_creation() {{
        let plugin = {struct_name}::new();
        assert_eq!(plugin.id(), "{name}");
        assert_eq!(plugin.config().version, "1.0.0");
    }}
}}
"#,
        name = name, struct_name = struct_name
    )
}

fn expected_theme_lib(name: &str, struct_name: &str) -> String {
    format!(
        r#"//! {name} - A RustPress Theme
//!
//! This theme provides custom styling and layout for RustPress.

use rustpress_sdk::{{
    BaseTheme, HookContext, ThemeConfig,
    async_trait::async_trait,
    Result,
}};
use std::sync::Arc;

/// {struct_name} theme implementation.
pub struct {struct_name} {{
    id: String,
    config: ThemeConfig,
}}

impl {struct_name} {{
    /// Create a new instance of the theme.
    pub fn new() -> Self {{
        Self {{
            id: "{name}".to_string(),
            config: ThemeConfig {{
                name: "{struct_name}".to_string(),
                version: "1.0.0".to_string(),
                description: "A beautiful RustPress theme".to_string(),
                supports: vec![
                    "dark-mode".to_string(),
                    "custom-colors".to_string(),
                    "custom-fonts".to_string(),
                ],
                ..Default::default()
            }},
        }}
    }}
}}

impl Default for {struct_name} {{
    fn default() -> Self {{
        Self::new()
    }}
}}

#[async_trait]
impl BaseTheme for {struct_name} {{
    fn id(&self) -> &str {{
        &self.id
    }}

    fn config(&self) -> &ThemeConfig {{
        &self.config
    }}

    async fn on_activate(&mut self, context: Arc<HookContext>) -> Result<()> {{
        tracing::info!("Theme activated");

        // Register theme assets
        self.register_asset("css", "/theme/style.css");
        self.register_asset("js", "/theme/main.js");

        Ok(())
    }}

    async fn on_deactivate(&mut self) -> Result<()> {{
        tracing::info!("Theme deactivated");
        Ok(())
    }}
}}

/// Create the theme instance.
pub fn create_theme() -> Box<dyn BaseTheme + Send + Sync> {{
    Box::new({struct_name}::new())
}}

#[cfg(test)]
mod tests {{
    use super::*;

    #[test]
    fn test_theme_creation() {{
        let theme = {struct_name}::new();
        assert_eq!(theme.id(), "{name}");
        assert_eq!(theme.config().version, "1.0.0");
    }}
}}
"#,
        name = name, struct_name = struct_name
    )
}

fn expected_app_lib(name: &str, struct_name: &str) -> String {
    format!(
        r#"//! {name} - A RustPress App
//!
//! This app provides a custom admin panel interface for RustPress.

use rustpress_sdk::{{
    BaseApp, HookContext, AppConfig, AppMenu,
    async_trait::async_trait,
    Result,
}};
use std::sync::Arc;

/// {struct_name} app implementation.
pub struct {struct_name} {{
    id: String,
    config: AppConfig,
}}

impl {struct_name} {{
    /// Create a new instance of the app.
    pub fn new() -> Self {{
        Self {{
            id: "{name}".to_string(),
            config: AppConfig {{
                name: "{struct_name}".to_string(),
                version: "1.0.0".to_string(),
                description: "A custom RustPress app".to_string(),
                icon: "dashboard".to_string(),
                menu: Some(AppMenu {{
                    title: "{struct_name}".to_string(),
                    icon: "dashboard".to_string(),
                    position: "sidebar".to_string(),
                }}),
                ..Default::default()
            }},
        }}
    }}
}}

impl Default for {struct_name} {{
    fn default() -> Self {{
        Self::new()
    }}
}}

#[async_trait]
impl BaseApp for {struct_name} {{
    fn id(&self) -> &str {{
        &self.id
    }}

    fn config(&self) -> &AppConfig {{
        &self.config
    }}

    async fn on_activate(&mut self, context: Arc<HookContext>) -> Result<()> {{
        tracing::info!("App activated");

        // Register app routes
        self.register_route("GET", "/dashboard", Self::get_dashboard);
        self.register_route("GET", "/settings", Self::get_settings);
        self.register_route("POST", "/settings", Self::save_settings);

        Ok(())
    }}

    async fn on_deactivate(&mut self) -> Result<()> {{
        tracing::info!("App deactivated");
        Ok(())
    }}
}}

impl {struct_name} {{
    async fn get_dashboard() -> Result<serde_json::Value> {{
        Ok(serde_json::json!({{
            "view": "dashboard",
            "data": {{}}
        }}))
    }}

    async fn get_settings() -> Result<serde_json::Value> {{
        Ok(serde_json::json!({{
            "view": "settings",
            "data": {{}}
        }}))
    }}

    async fn save_settings() -> Result<serde_json::Value> {{
        Ok(serde_json::json!({{ "success": true }}))
    }}
}}

/// Create the app instance.
pub fn create_app() -> Box<dyn BaseApp + Send + Sync> {{
    Box::new({struct_name}::new())
}}

#[cfg(test)]
mod tests {{
    use super::*;

    #[test]
    fn test_app_creation() {{
        let app = {struct_name}::new();
        assert_eq!(app.id(), "{name}");
        assert_eq!(app.config().version, "1.0.0");
    }}
}}
"#,
        name = name, struct_name = struct_name
    )
}

fn expected_hook_lib(name: &str, function_name: &str) -> String {
    format!(
        r#"//! {name} - A RustPress Hook Function
//!
//! This module defines hook functions for RustPress.

use rustpress_sdk::{{
    define_hook, before_hook, after_hook,
    HookContext, HookArgs, HookDefinition, HookConfig,
    TriggerTiming,
    Result,
}};
use std::sync::Arc;

/// Validation hook that runs before content creation.
pub fn {function_name}() -> HookDefinition {{
    define_hook(
        HookConfig {{
            name: "{function_name}".to_string(),
            display_name: "{name}".to_string(),
            description: "Validates data before processing".to_string(),
            trigger: "@@rustpress.core.Content.create@@".to_string(),
            timing: TriggerTiming::Before,
        }},
        |args: HookArgs, context: Arc<HookContext>| {{
            Box::pin(async move {{
                // Example validation
                if args.original_args.is_null() {{
                    return Err("Data cannot be empty".into());
                }}

                tracing::info!("Validation passed");
                Ok(())
            }})
        }},
    )
}}

/// Logging hook that runs after content creation.
pub fn log_content() -> HookDefinition {{
    after_hook(
        "@@rustpress.core.Content.create@@",
        |args: HookArgs, context: Arc<HookContext>| {{
            Box::pin(async move {{
                tracing::info!("Content created: {{}}", args.result);
                Ok(())
            }})
        }},
        Some("logContent".to_string()),
    )
}}

/// Get all hooks defined in this module.
pub fn get_hooks() -> Vec<HookDefinition> {{
    vec![{function_name}(), log_content()]
}}

#[cfg(test)]
mod tests {{
    use super::*;

    #[test]
    fn test_hook_creation() {{
        let hooks = get_hooks();
        assert_eq!(hooks.len(), 2);
    }}
}}
"#,
        name = name, function_name = function_name
    )
}

fn expected_cargo_toml(crate_name: &str, project_type: &str) -> String {
    format!(
        r#"[package]
name = "{crate_name}"
version = "1.0.0"
edition = "2021"
rust-version = "1.70"
authors = ["Your Name <your@email.com>"]
description = "A RustPress {project_type}"
license = "MIT"
readme = "README.md"
keywords = ["rustpress", "{project_type}"]

[dependencies]
rustpress-sdk = "1.0"
async-trait = "0.1"
serde = {{ version = "1.0", features = ["derive"] }}
serde_json = "1.0"
tokio = {{ version = "1.35", features = ["full"] }}
tracing = "0.1"

[dev-dependencies]
tokio = {{ version = "1.35", features = ["full", "test-util"] }}

[lib]
name = "{crate_name}"
path = "src/lib.rs"
"#,
        crate_name = crate_name, project_type = project_type
    )
}

fn expected_readme(name: &str, crate_name: &str, project_type: &str) -> String {
    format!(
        r#"# {name}

A RustPress {project_type} built with the Rust SDK.

## Installation

Add to your `Cargo.toml`:

```toml
[dependencies]
{crate_name} = "1.0"
```

## Usage

```rust
use {crate_name}::create_{project_type};

// The {project_type} is automatically loaded by RustPress
let {project_type} = create_{project_type}();
```

## Development

```bash
# Build
cargo build

# Run tests
cargo test

# Build for release
cargo build --release

# Check for issues
cargo clippy
```

## Configuration

Add to your RustPress configuration:

```toml
[{project_type}s.{name}]
enabled = true
```

## License

MIT
"#,
        name = name, crate_name = crate_name, project_type = project_type
    )
}

const NAMES: [&str; 6] = ["my-plugin", "blog", "a--b-", "-x", "", "über-cool-app"];

#[test]
fn templates_fill_in_the_names() {
    for name in NAMES {
        let s = to_struct_name(name);
        assert_eq!(generate_plugin_lib(name, &s), expected_plugin_lib(name, &s));
        assert_eq!(generate_theme_lib(name, &s), expected_theme_lib(name, &s));
        assert_eq!(generate_app_lib(name, &s), expected_app_lib(name, &s));
        assert_eq!(generate_hook_lib(name, "my_fn"), expected_hook_lib(name, "my_fn"));
        let crate_name = to_snake_case(name);
        for t in ["plugin", "theme", "app", "hook"] {
            assert_eq!(generate_cargo_toml(name, t), expected_cargo_toml(&crate_name, t));
            assert_eq!(generate_readme(name, &s, t), expected_readme(name, &crate_name, t));
        }
    }
}

#[test]
fn struct_and_snake_names() {
    assert_eq!(to_struct_name("my-cool-plugin"), "MyCoolPlugin");
    assert_eq!(to_struct_name("blog"), "Blog");
    assert_eq!(to_struct_name("my-HTTP-client"), "MyHTTPClient");
    assert_eq!(to_struct_name("a--b-"), "AB");
    assert_eq!(to_struct_name("-x"), "X");
    assert_eq!(to_struct_name(""), "");
    assert_eq!(to_struct_name("über-ß"), "ÜberSS");
    assert_eq!(to_snake_case("my-cool-plugin"), "my_cool_plugin");
    assert_eq!(to_snake_case("a--b"), "a__b");
}

#[test]
fn project_lib_source_by_type() {
    let name = "my-hooks";
    assert_eq!(project_lib_source("plugin", name), expected_plugin_lib(name, "MyHooks"));
    assert_eq!(project_lib_source("theme", name), expected_theme_lib(name, "MyHooks"));
    assert_eq!(project_lib_source("app", name), expected_app_lib(name, "MyHooks"));
    assert_eq!(project_lib_source("hook", name), expected_hook_lib(name, "myhooks"));
}

#[test]
fn scaffold_project_files() {
    let files = scaffold_project("plugin", "my-plugin");
    assert_eq!(files.lib_rs, expected_plugin_lib("my-plugin", "MyPlugin"));
    assert_eq!(files.cargo_toml, expected_cargo_toml("my_plugin", "plugin"));
    assert_eq!(files.readme, expected_readme("my-plugin", "my_plugin", "plugin"));
    assert_eq!(files.license, "MIT License\n\nCopyright (c) 2024\n");
    assert_eq!(files.gitignore, "/target\nCargo.lock\n*.swp\n*.swo\n.env\n");
    assert_eq!(files.config.name, "my-plugin");
    assert_eq!(files.config.project_type, "plugin");
    assert_eq!(files.config.version, "1.0.0");
    assert_eq!(files.config.main, "target/release/libmy_plugin.so");
    assert_eq!(files.config.sdk, "rust");
    assert_eq!(files.config.sdk_version, ">=1.0.0");
    assert_eq!(files.config.rustpress.min_version, "1.0.0");
}

#[test]
fn validation_report_lists_problems_in_order() {
    let ok = rustpress_config("p", "plugin");
    let r = validation_report(Ok(&ok), true, true, true);
    assert!(r.errors.is_empty());
    assert!(r.warnings.is_empty());

    let mut empty = rustpress_config("", "");
    empty.version = String::new();
    let r = validation_report(Ok(&empty), false, false, false);
    assert_eq!(
        r.errors,
        vec![
            "Missing required field: name",
            "Missing required field: type",
            "Missing required field: version",
            "Missing Cargo.toml",
            "Missing src/lib.rs",
        ]
    );
    assert_eq!(r.warnings, vec!["Missing README.md"]);

    let r = validation_report(Err("expected value at line 1 column 1"), true, false, true);
    assert_eq!(
        r.errors,
        vec![
            "Invalid JSON in rustpress.json: expected value at line 1 column 1",
            "Missing src/lib.rs",
        ]
    );
}

#[test]
fn build_and_publish_details() {
    assert_eq!(cargo_build_args(false), vec!["build"]);
    assert_eq!(cargo_build_args(true), vec!["build", "--release"]);
    assert_eq!(build_output_dir(true), "target/release/");
    assert_eq!(build_output_dir(false), "target/debug/");
    assert_eq!(
        marketplace_url("plugin", "my-plugin"),
        "https://marketplace.rustpress.dev/plugins/my-plugin"
    );
}
