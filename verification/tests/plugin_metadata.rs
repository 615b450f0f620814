//! Plugin metadata and its builders.

use rustpress_sdk::PluginMetadata;

/// A plugin as its users write one: an id and metadata.
struct FakePlugin {
    id: String,
    meta: PluginMetadata,
}

impl FakePlugin {
    fn new(id: &str) -> Self {
        Self {
            id: id.into(),
            meta: PluginMetadata::new("Fake Plugin", "1.0.0")
                .with_description("Test plugin")
                .with_author("test"),
        }
    }

    fn id(&self) -> &str {
        &self.id
    }

    fn metadata(&self) -> &PluginMetadata {
        &self.meta
    }
}

#[test]
fn plugin_metadata_new_defaults() {
    let m = PluginMetadata::new("My Plugin", "0.1.0");
    assert_eq!(m.name, "My Plugin");
    assert_eq!(m.version, "0.1.0");
    assert!(m.description.is_none());
    assert!(m.author.is_none());
    assert!(m.keywords.is_empty());
    assert!(m.dependencies.is_empty());
    assert!(m.permissions.is_empty());
}

#[test]
fn plugin_metadata_builder() {
    let m = PluginMetadata::new("p", "1.0.0")
        .with_description("desc")
        .with_author("alice");
    assert_eq!(m.description.as_deref(), Some("desc"));
    assert_eq!(m.author.as_deref(), Some("alice"));
}

#[test]
fn plugin_id_accessor() {
    let p = FakePlugin::new("fake");
    assert_eq!(p.id(), "fake");
}

#[test]
fn plugin_metadata_accessor() {
    let p = FakePlugin::new("fake");
    assert_eq!(p.metadata().name, "Fake Plugin");
    assert_eq!(p.metadata().version, "1.0.0");
    assert_eq!(p.metadata().description.as_deref(), Some("Test plugin"));
}

#[test]
fn plugin_metadata_builders_replace_earlier_values() {
    let m = PluginMetadata::new("p", "1.0.0")
        .with_author("alice")
        .with_author("bob")
        .with_description("one")
        .with_description("two");
    assert_eq!(m.author.as_deref(), Some("bob"));
    assert_eq!(m.description.as_deref(), Some("two"));
    assert!(m.homepage.is_none());
    assert!(m.repository.is_none());
    assert!(m.license.is_none());
}
