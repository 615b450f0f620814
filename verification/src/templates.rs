//! The files of a new project: source templates filled with the project's names.
use vstd::prelude::*;
use crate::names::{snake_case, to_snake_case};
use crate::text::{owned, push_str};

verus! {

/// The `src/lib.rs` of a new plugin project.
pub open spec fn plugin_lib_text(name: Seq<char>, struct_name: Seq<char>) -> Seq<char> {
    r##"//! "##@
        + name
        + r##" - A RustPress Plugin
//!
//! This plugin provides custom functionality for RustPress.

use rustpress_sdk::{
    BasePlugin, HookContext, HookArgs, PluginConfig,
    async_trait::async_trait,
    Result,
};
use std::sync::Arc;

/// "##@
        + struct_name
        + r##" plugin implementation.
pub struct "##@
        + struct_name
        + r##" {
    id: String,
    config: PluginConfig,
}

impl "##@
        + struct_name
        + r##" {
    /// Create a new instance of the plugin.
    pub fn new() -> Self {
        Self {
            id: ""##@
        + name
        + r##"".to_string(),
            config: PluginConfig {
                name: ""##@
        + struct_name
        + r##"".to_string(),
                version: "1.0.0".to_string(),
                description: "A custom RustPress plugin".to_string(),
                ..Default::default()
            },
        }
    }
}

impl Default for "##@
        + struct_name
        + r##" {
    fn default() -> Self {
        Self::new()
    }
}

#[async_trait]
impl BasePlugin for "##@
        + struct_name
        + r##" {
    fn id(&self) -> &str {
        &self.id
    }

    fn config(&self) -> &PluginConfig {
        &self.config
    }

    async fn on_activate(&mut self, context: Arc<HookContext>) -> Result<()> {
        tracing::info!("Plugin activated");

        // Register hooks
        self.register_hook("content:before_save", |content| {
            Box::pin(async move {
                // Process content before saving
                Ok(content)
            })
        });

        Ok(())
    }

    async fn on_deactivate(&mut self) -> Result<()> {
        tracing::info!("Plugin deactivated");
        Ok(())
    }
}

/// Create the plugin instance.
pub fn create_plugin() -> Box<dyn BasePlugin + Send + Sync> {
    Box::new("##@
        + struct_name
        + r##"::new())
}

#[cfg(test)]
mod tests {
    use super::*;

    #[test]
    fn test_plugin_creation() {
        let plugin = "##@
        + struct_name
        + r##"::new();
        assert_eq!(plugin.id(), ""##@
        + name
        + r##"");
        assert_eq!(plugin.config().version, "1.0.0");
    }
}
"##@
}

/// The source of a new plugin project's `src/lib.rs`.
pub fn generate_plugin_lib(name: &str, struct_name: &str) -> (r: String)
    ensures
        r@ == plugin_lib_text(name@, struct_name@),
{
    let mut r = owned(r##"//! "##);
    push_str(&mut r, name);
    push_str(&mut r, r##" - A RustPress Plugin
//!
//! This plugin provides custom functionality for RustPress.

use rustpress_sdk::{
    BasePlugin, HookContext, HookArgs, PluginConfig,
    async_trait::async_trait,
    Result,
};
use std::sync::Arc;

/// "##);
    push_str(&mut r, struct_name);
    push_str(&mut r, r##" plugin implementation.
pub struct "##);
    push_str(&mut r, struct_name);
    push_str(&mut r, r##" {
    id: String,
    config: PluginConfig,
}

impl "##);
    push_str(&mut r, struct_name);
    push_str(&mut r, r##" {
    /// Create a new instance of the plugin.
    pub fn new() -> Self {
        Self {
            id: ""##);
    push_str(&mut r, name);
    push_str(&mut r, r##"".to_string(),
            config: PluginConfig {
                name: ""##);
    push_str(&mut r, struct_name);
    push_str(&mut r, r##"".to_string(),
                version: "1.0.0".to_string(),
                description: "A custom RustPress plugin".to_string(),
                ..Default::default()
            },
        }
    }
}

impl Default for "##);
    push_str(&mut r, struct_name);
    push_str(&mut r, r##" {
    fn default() -> Self {
        Self::new()
    }
}

#[async_trait]
impl BasePlugin for "##);
    push_str(&mut r, struct_name);
    push_str(&mut r, r##" {
    fn id(&self) -> &str {
        &self.id
    }

    fn config(&self) -> &PluginConfig {
        &self.config
    }

    async fn on_activate(&mut self, context: Arc<HookContext>) -> Result<()> {
        tracing::info!("Plugin activated");

        // Register hooks
        self.register_hook("content:before_save", |content| {
            Box::pin(async move {
                // Process content before saving
                Ok(content)
            })
        });

        Ok(())
    }

    async fn on_deactivate(&mut self) -> Result<()> {
        tracing::info!("Plugin deactivated");
        Ok(())
    }
}

/// Create the plugin instance.
pub fn create_plugin() -> Box<dyn BasePlugin + Send + Sync> {
    Box::new("##);
    push_str(&mut r, struct_name);
    push_str(&mut r, r##"::new())
}

#[cfg(test)]
mod tests {
    use super::*;

    #[test]
    fn test_plugin_creation() {
        let plugin = "##);
    push_str(&mut r, struct_name);
    push_str(&mut r, r##"::new();
        assert_eq!(plugin.id(), ""##);
    push_str(&mut r, name);
    push_str(&mut r, r##"");
        assert_eq!(plugin.config().version, "1.0.0");
    }
}
"##);
    r
}

/// The `src/lib.rs` of a new theme project.
pub open spec fn theme_lib_text(name: Seq<char>, struct_name: Seq<char>) -> Seq<char> {
    r##"//! "##@
        + name
        + r##" - A RustPress Theme
//!
//! This theme provides custom styling and layout for RustPress.

use rustpress_sdk::{
    BaseTheme, HookContext, ThemeConfig,
    async_trait::async_trait,
    Result,
};
use std::sync::Arc;

/// "##@
        + struct_name
        + r##" theme implementation.
pub struct "##@
        + struct_name
        + r##" {
    id: String,
    config: ThemeConfig,
}

impl "##@
        + struct_name
        + r##" {
    /// Create a new instance of the theme.
    pub fn new() -> Self {
        Self {
            id: ""##@
        + name
        + r##"".to_string(),
            config: ThemeConfig {
                name: ""##@
        + struct_name
        + r##"".to_string(),
                version: "1.0.0".to_string(),
                description: "A beautiful RustPress theme".to_string(),
                supports: vec![
                    "dark-mode".to_string(),
                    "custom-colors".to_string(),
                    "custom-fonts".to_string(),
                ],
                ..Default::default()
            },
        }
    }
}

impl Default for "##@
        + struct_name
        + r##" {
    fn default() -> Self {
        Self::new()
    }
}

#[async_trait]
impl BaseTheme for "##@
        + struct_name
        + r##" {
    fn id(&self) -> &str {
        &self.id
    }

    fn config(&self) -> &ThemeConfig {
        &self.config
    }

    async fn on_activate(&mut self, context: Arc<HookContext>) -> Result<()> {
        tracing::info!("Theme activated");

        // Register theme assets
        self.register_asset("css", "/theme/style.css");
        self.register_asset("js", "/theme/main.js");

        Ok(())
    }

    async fn on_deactivate(&mut self) -> Result<()> {
        tracing::info!("Theme deactivated");
        Ok(())
    }
}

/// Create the theme instance.
pub fn create_theme() -> Box<dyn BaseTheme + Send + Sync> {
    Box::new("##@
        + struct_name
        + r##"::new())
}

#[cfg(test)]
mod tests {
    use super::*;

    #[test]
    fn test_theme_creation() {
        let theme = "##@
        + struct_name
        + r##"::new();
        assert_eq!(theme.id(), ""##@
        + name
        + r##"");
        assert_eq!(theme.config().version, "1.0.0");
    }
}
"##@
}

/// The source of a new theme project's `src/lib.rs`.
pub fn generate_theme_lib(name: &str, struct_name: &str) -> (r: String)
    ensures
        r@ == theme_lib_text(name@, struct_name@),
{
    let mut r = owned(r##"//! "##);
    push_str(&mut r, name);
    push_str(&mut r, r##" - A RustPress Theme
//!
//! This theme provides custom styling and layout for RustPress.

use rustpress_sdk::{
    BaseTheme, HookContext, ThemeConfig,
    async_trait::async_trait,
    Result,
};
use std::sync::Arc;

/// "##);
    push_str(&mut r, struct_name);
    push_str(&mut r, r##" theme implementation.
pub struct "##);
    push_str(&mut r, struct_name);
    push_str(&mut r, r##" {
    id: String,
    config: ThemeConfig,
}

impl "##);
    push_str(&mut r, struct_name);
    push_str(&mut r, r##" {
    /// Create a new instance of the theme.
    pub fn new() -> Self {
        Self {
            id: ""##);
    push_str(&mut r, name);
    push_str(&mut r, r##"".to_string(),
            config: ThemeConfig {
                name: ""##);
    push_str(&mut r, struct_name);
    push_str(&mut r, r##"".to_string(),
                version: "1.0.0".to_string(),
                description: "A beautiful RustPress theme".to_string(),
                supports: vec![
                    "dark-mode".to_string(),
                    "custom-colors".to_string(),
                    "custom-fonts".to_string(),
                ],
                ..Default::default()
            },
        }
    }
}

impl Default for "##);
    push_str(&mut r, struct_name);
    push_str(&mut r, r##" {
    fn default() -> Self {
        Self::new()
    }
}

#[async_trait]
impl BaseTheme for "##);
    push_str(&mut r, struct_name);
    push_str(&mut r, r##" {
    fn id(&self) -> &str {
        &self.id
    }

    fn config(&self) -> &ThemeConfig {
        &self.config
    }

    async fn on_activate(&mut self, context: Arc<HookContext>) -> Result<()> {
        tracing::info!("Theme activated");

        // Register theme assets
        self.register_asset("css", "/theme/style.css");
        self.register_asset("js", "/theme/main.js");

        Ok(())
    }

    async fn on_deactivate(&mut self) -> Result<()> {
        tracing::info!("Theme deactivated");
        Ok(())
    }
}

/// Create the theme instance.
pub fn create_theme() -> Box<dyn BaseTheme + Send + Sync> {
    Box::new("##);
    push_str(&mut r, struct_name);
    push_str(&mut r, r##"::new())
}

#[cfg(test)]
mod tests {
    use super::*;

    #[test]
    fn test_theme_creation() {
        let theme = "##);
    push_str(&mut r, struct_name);
    push_str(&mut r, r##"::new();
        assert_eq!(theme.id(), ""##);
    push_str(&mut r, name);
    push_str(&mut r, r##"");
        assert_eq!(theme.config().version, "1.0.0");
    }
}
"##);
    r
}

/// The `src/lib.rs` of a new app project.
pub open spec fn app_lib_text(name: Seq<char>, struct_name: Seq<char>) -> Seq<char> {
    r##"//! "##@
        + name
        + r##" - A RustPress App
//!
//! This app provides a custom admin panel interface for RustPress.

use rustpress_sdk::{
    BaseApp, HookContext, AppConfig, AppMenu,
    async_trait::async_trait,
    Result,
};
use std::sync::Arc;

/// "##@
        + struct_name
        + r##" app implementation.
pub struct "##@
        + struct_name
        + r##" {
    id: String,
    config: AppConfig,
}

impl "##@
        + struct_name
        + r##" {
    /// Create a new instance of the app.
    pub fn new() -> Self {
        Self {
            id: ""##@
        + name
        + r##"".to_string(),
            config: AppConfig {
                name: ""##@
        + struct_name
        + r##"".to_string(),
                version: "1.0.0".to_string(),
                description: "A custom RustPress app".to_string(),
                icon: "dashboard".to_string(),
                menu: Some(AppMenu {
                    title: ""##@
        + struct_name
        + r##"".to_string(),
                    icon: "dashboard".to_string(),
                    position: "sidebar".to_string(),
                }),
                ..Default::default()
            },
        }
    }
}

impl Default for "##@
        + struct_name
        + r##" {
    fn default() -> Self {
        Self::new()
    }
}

#[async_trait]
impl BaseApp for "##@
        + struct_name
        + r##" {
    fn id(&self) -> &str {
        &self.id
    }

    fn config(&self) -> &AppConfig {
        &self.config
    }

    async fn on_activate(&mut self, context: Arc<HookContext>) -> Result<()> {
        tracing::info!("App activated");

        // Register app routes
        self.register_route("GET", "/dashboard", Self::get_dashboard);
        self.register_route("GET", "/settings", Self::get_settings);
        self.register_route("POST", "/settings", Self::save_settings);

        Ok(())
    }

    async fn on_deactivate(&mut self) -> Result<()> {
        tracing::info!("App deactivated");
        Ok(())
    }
}

impl "##@
        + struct_name
        + r##" {
    async fn get_dashboard() -> Result<serde_json::Value> {
        Ok(serde_json::json!({
            "view": "dashboard",
            "data": {}
        }))
    }

    async fn get_settings() -> Result<serde_json::Value> {
        Ok(serde_json::json!({
            "view": "settings",
            "data": {}
        }))
    }

    async fn save_settings() -> Result<serde_json::Value> {
        Ok(serde_json::json!({ "success": true }))
    }
}

/// Create the app instance.
pub fn create_app() -> Box<dyn BaseApp + Send + Sync> {
    Box::new("##@
        + struct_name
        + r##"::new())
}

#[cfg(test)]
mod tests {
    use super::*;

    #[test]
    fn test_app_creation() {
        let app = "##@
        + struct_name
        + r##"::new();
        assert_eq!(app.id(), ""##@
        + name
        + r##"");
        assert_eq!(app.config().version, "1.0.0");
    }
}
"##@
}

/// The source of a new app project's `src/lib.rs`.
pub fn generate_app_lib(name: &str, struct_name: &str) -> (r: String)
    ensures
        r@ == app_lib_text(name@, struct_name@),
{
    let mut r = owned(r##"//! "##);
    push_str(&mut r, name);
    push_str(&mut r, r##" - A RustPress App
//!
//! This app provides a custom admin panel interface for RustPress.

use rustpress_sdk::{
    BaseApp, HookContext, AppConfig, AppMenu,
    async_trait::async_trait,
    Result,
};
use std::sync::Arc;

/// "##);
    push_str(&mut r, struct_name);
    push_str(&mut r, r##" app implementation.
pub struct "##);
    push_str(&mut r, struct_name);
    push_str(&mut r, r##" {
    id: String,
    config: AppConfig,
}

impl "##);
    push_str(&mut r, struct_name);
    push_str(&mut r, r##" {
    /// Create a new instance of the app.
    pub fn new() -> Self {
        Self {
            id: ""##);
    push_str(&mut r, name);
    push_str(&mut r, r##"".to_string(),
            config: AppConfig {
                name: ""##);
    push_str(&mut r, struct_name);
    push_str(&mut r, r##"".to_string(),
                version: "1.0.0".to_string(),
                description: "A custom RustPress app".to_string(),
                icon: "dashboard".to_string(),
                menu: Some(AppMenu {
                    title: ""##);
    push_str(&mut r, struct_name);
    push_str(&mut r, r##"".to_string(),
                    icon: "dashboard".to_string(),
                    position: "sidebar".to_string(),
                }),
                ..Default::default()
            },
        }
    }
}

impl Default for "##);
    push_str(&mut r, struct_name);
    push_str(&mut r, r##" {
    fn default() -> Self {
        Self::new()
    }
}

#[async_trait]
impl BaseApp for "##);
    push_str(&mut r, struct_name);
    push_str(&mut r, r##" {
    fn id(&self) -> &str {
        &self.id
    }

    fn config(&self) -> &AppConfig {
        &self.config
    }

    async fn on_activate(&mut self, context: Arc<HookContext>) -> Result<()> {
        tracing::info!("App activated");

        // Register app routes
        self.register_route("GET", "/dashboard", Self::get_dashboard);
        self.register_route("GET", "/settings", Self::get_settings);
        self.register_route("POST", "/settings", Self::save_settings);

        Ok(())
    }

    async fn on_deactivate(&mut self) -> Result<()> {
        tracing::info!("App deactivated");
        Ok(())
    }
}

impl "##);
    push_str(&mut r, struct_name);
    push_str(&mut r, r##" {
    async fn get_dashboard() -> Result<serde_json::Value> {
        Ok(serde_json::json!({
            "view": "dashboard",
            "data": {}
        }))
    }

    async fn get_settings() -> Result<serde_json::Value> {
        Ok(serde_json::json!({
            "view": "settings",
            "data": {}
        }))
    }

    async fn save_settings() -> Result<serde_json::Value> {
        Ok(serde_json::json!({ "success": true }))
    }
}

/// Create the app instance.
pub fn create_app() -> Box<dyn BaseApp + Send + Sync> {
    Box::new("##);
    push_str(&mut r, struct_name);
    push_str(&mut r, r##"::new())
}

#[cfg(test)]
mod tests {
    use super::*;

    #[test]
    fn test_app_creation() {
        let app = "##);
    push_str(&mut r, struct_name);
    push_str(&mut r, r##"::new();
        assert_eq!(app.id(), ""##);
    push_str(&mut r, name);
    push_str(&mut r, r##"");
        assert_eq!(app.config().version, "1.0.0");
    }
}
"##);
    r
}

/// The `src/lib.rs` of a new hook project.
pub open spec fn hook_lib_text(name: Seq<char>, function_name: Seq<char>) -> Seq<char> {
    r##"//! "##@
        + name
        + r##" - A RustPress Hook Function
//!
//! This module defines hook functions for RustPress.

use rustpress_sdk::{
    define_hook, before_hook, after_hook,
    HookContext, HookArgs, HookDefinition, HookConfig,
    TriggerTiming,
    Result,
};
use std::sync::Arc;

/// Validation hook that runs before content creation.
pub fn "##@
        + function_name
        + r##"() -> HookDefinition {
    define_hook(
        HookConfig {
            name: ""##@
        + function_name
        + r##"".to_string(),
            display_name: ""##@
        + name
        + r##"".to_string(),
            description: "Validates data before processing".to_string(),
            trigger: "@@rustpress.core.Content.create@@".to_string(),
            timing: TriggerTiming::Before,
        },
        |args: HookArgs, context: Arc<HookContext>| {
            Box::pin(async move {
                // Example validation
                if args.original_args.is_null() {
                    return Err("Data cannot be empty".into());
                }

                tracing::info!("Validation passed");
                Ok(())
            })
        },
    )
}

/// Logging hook that runs after content creation.
pub fn log_content() -> HookDefinition {
    after_hook(
        "@@rustpress.core.Content.create@@",
        |args: HookArgs, context: Arc<HookContext>| {
            Box::pin(async move {
                tracing::info!("Content created: {}", args.result);
                Ok(())
            })
        },
        Some("logContent".to_string()),
    )
}

/// Get all hooks defined in this module.
pub fn get_hooks() -> Vec<HookDefinition> {
    vec!["##@
        + function_name
        + r##"(), log_content()]
}

#[cfg(test)]
mod tests {
    use super::*;

    #[test]
    fn test_hook_creation() {
        let hooks = get_hooks();
        assert_eq!(hooks.len(), 2);
    }
}
"##@
}

/// The source of a new hook project's `src/lib.rs`.
pub fn generate_hook_lib(name: &str, function_name: &str) -> (r: String)
    ensures
        r@ == hook_lib_text(name@, function_name@),
{
    let mut r = owned(r##"//! "##);
    push_str(&mut r, name);
    push_str(&mut r, r##" - A RustPress Hook Function
//!
//! This module defines hook functions for RustPress.

use rustpress_sdk::{
    define_hook, before_hook, after_hook,
    HookContext, HookArgs, HookDefinition, HookConfig,
    TriggerTiming,
    Result,
};
use std::sync::Arc;

/// Validation hook that runs before content creation.
pub fn "##);
    push_str(&mut r, function_name);
    push_str(&mut r, r##"() -> HookDefinition {
    define_hook(
        HookConfig {
            name: ""##);
    push_str(&mut r, function_name);
    push_str(&mut r, r##"".to_string(),
            display_name: ""##);
    push_str(&mut r, name);
    push_str(&mut r, r##"".to_string(),
            description: "Validates data before processing".to_string(),
            trigger: "@@rustpress.core.Content.create@@".to_string(),
            timing: TriggerTiming::Before,
        },
        |args: HookArgs, context: Arc<HookContext>| {
            Box::pin(async move {
                // Example validation
                if args.original_args.is_null() {
                    return Err("Data cannot be empty".into());
                }

                tracing::info!("Validation passed");
                Ok(())
            })
        },
    )
}

/// Logging hook that runs after content creation.
pub fn log_content() -> HookDefinition {
    after_hook(
        "@@rustpress.core.Content.create@@",
        |args: HookArgs, context: Arc<HookContext>| {
            Box::pin(async move {
                tracing::info!("Content created: {}", args.result);
                Ok(())
            })
        },
        Some("logContent".to_string()),
    )
}

/// Get all hooks defined in this module.
pub fn get_hooks() -> Vec<HookDefinition> {
    vec!["##);
    push_str(&mut r, function_name);
    push_str(&mut r, r##"(), log_content()]
}

#[cfg(test)]
mod tests {
    use super::*;

    #[test]
    fn test_hook_creation() {
        let hooks = get_hooks();
        assert_eq!(hooks.len(), 2);
    }
}
"##);
    r
}

/// The `Cargo.toml` of a new project, for its crate name and project type.
pub open spec fn cargo_toml_text(crate_name: Seq<char>, project_type: Seq<char>) -> Seq<char> {
    r##"[package]
name = ""##@
        + crate_name
        + r##""
version = "1.0.0"
edition = "2021"
rust-version = "1.70"
authors = ["Your Name <your@email.com>"]
description = "A RustPress "##@
        + project_type
        + r##""
license = "MIT"
readme = "README.md"
keywords = ["rustpress", ""##@
        + project_type
        + r##""]

[dependencies]
rustpress-sdk = "1.0"
async-trait = "0.1"
serde = { version = "1.0", features = ["derive"] }
serde_json = "1.0"
tokio = { version = "1.35", features = ["full"] }
tracing = "0.1"

[dev-dependencies]
tokio = { version = "1.35", features = ["full", "test-util"] }

[lib]
name = ""##@
        + crate_name
        + r##""
path = "src/lib.rs"
"##@
}

/// The `Cargo.toml` of a new project.
pub fn generate_cargo_toml(name: &str, project_type: &str) -> (r: String)
    ensures
        r@ == cargo_toml_text(snake_case(name@), project_type@),
{
    let crate_name_string = to_snake_case(name);
    let crate_name = crate_name_string.as_str();
    let mut r = owned(r##"[package]
name = ""##);
    push_str(&mut r, crate_name);
    push_str(&mut r, r##""
version = "1.0.0"
edition = "2021"
rust-version = "1.70"
authors = ["Your Name <your@email.com>"]
description = "A RustPress "##);
    push_str(&mut r, project_type);
    push_str(&mut r, r##""
license = "MIT"
readme = "README.md"
keywords = ["rustpress", ""##);
    push_str(&mut r, project_type);
    push_str(&mut r, r##""]

[dependencies]
rustpress-sdk = "1.0"
async-trait = "0.1"
serde = { version = "1.0", features = ["derive"] }
serde_json = "1.0"
tokio = { version = "1.35", features = ["full"] }
tracing = "0.1"

[dev-dependencies]
tokio = { version = "1.35", features = ["full", "test-util"] }

[lib]
name = ""##);
    push_str(&mut r, crate_name);
    push_str(&mut r, r##""
path = "src/lib.rs"
"##);
    r
}

/// The `README.md` of a new project, for its name, crate name and project type.
pub open spec fn readme_text(name: Seq<char>, crate_name: Seq<char>, project_type: Seq<char>) -> Seq<char> {
    r##"# "##@
        + name
        + r##"

A RustPress "##@
        + project_type
        + r##" built with the Rust SDK.

## Installation

Add to your `Cargo.toml`:

```toml
[dependencies]
"##@
        + crate_name
        + r##" = "1.0"
```

## Usage

```rust
use "##@
        + crate_name
        + r##"::create_"##@
        + project_type
        + r##";

// The "##@
        + project_type
        + r##" is automatically loaded by RustPress
let "##@
        + project_type
        + r##" = create_"##@
        + project_type
        + r##"();
```

## Development

```bash
# Build
cargo build

# Run tests
cargo test

# Build for release
cargo build --release

# Check for issues
cargo clippy
```

## Configuration

Add to your RustPress configuration:

```toml
["##@
        + project_type
        + r##"s."##@
        + name
        + r##"]
enabled = true
```

## License

MIT
"##@
}

/// The `README.md` of a new project.
pub fn generate_readme(name: &str, _struct_name: &str, project_type: &str) -> (r: String)
    ensures
        r@ == readme_text(name@, snake_case(name@), project_type@),
{
    let crate_name_string = to_snake_case(name);
    let crate_name = crate_name_string.as_str();
    let mut r = owned(r##"# "##);
    push_str(&mut r, name);
    push_str(&mut r, r##"

A RustPress "##);
    push_str(&mut r, project_type);
    push_str(&mut r, r##" built with the Rust SDK.

## Installation

Add to your `Cargo.toml`:

```toml
[dependencies]
"##);
    push_str(&mut r, crate_name);
    push_str(&mut r, r##" = "1.0"
```

## Usage

```rust
use "##);
    push_str(&mut r, crate_name);
    push_str(&mut r, r##"::create_"##);
    push_str(&mut r, project_type);
    push_str(&mut r, r##";

// The "##);
    push_str(&mut r, project_type);
    push_str(&mut r, r##" is automatically loaded by RustPress
let "##);
    push_str(&mut r, project_type);
    push_str(&mut r, r##" = create_"##);
    push_str(&mut r, project_type);
    push_str(&mut r, r##"();
```

## Development

```bash
# Build
cargo build

# Run tests
cargo test

# Build for release
cargo build --release

# Check for issues
cargo clippy
```

## Configuration

Add to your RustPress configuration:

```toml
["##);
    push_str(&mut r, project_type);
    push_str(&mut r, r##"s."##);
    push_str(&mut r, name);
    push_str(&mut r, r##"]
enabled = true
```

## License

MIT
"##);
    r
}

} // verus!
