//! Hook and plugin metadata with their builders.
use vstd::prelude::*;
use std::collections::HashMap;
use crate::text::owned;
use crate::types::TriggerTiming;

verus! {

/// The view of an optional string.
pub open spec fn opt_str_view(s: Option<String>) -> Option<Seq<char>> {
    match s {
        Some(t) => Some(t@),
        None => None,
    }
}

/// Priority of a hook whose metadata names none.
pub fn default_priority() -> (r: i32)
    ensures
        r == 100,
{
    100
}

/// Whether a hook whose metadata says nothing about it is enabled.
pub fn default_enabled() -> (r: bool)
    ensures
        r,
{
    true
}

/// Hook metadata.
#[derive(Debug, Clone)]
pub struct HookMetadata {
    /// Unique name for the hook.
    pub name: String,
    /// Human-readable name.
    pub display_name: Option<String>,
    /// Description of what the hook does.
    pub description: Option<String>,
    /// Trigger pattern.
    pub trigger: String,
    /// When to execute the hook.
    pub timing: TriggerTiming,
    /// Version of the hook.
    pub version: Option<String>,
    /// Author of the hook.
    pub author: Option<String>,
    /// Tags for categorization.
    pub tags: Vec<String>,
    /// Execution priority (lower runs first).
    pub priority: i32,
    /// Whether the hook is enabled.
    pub enabled: bool,
}

/// The mathematical value of a [`HookMetadata`].
pub struct HookMetadataView {
    pub name: Seq<char>,
    pub display_name: Option<Seq<char>>,
    pub description: Option<Seq<char>>,
    pub trigger: Seq<char>,
    pub timing: TriggerTiming,
    pub version: Option<Seq<char>>,
    pub author: Option<Seq<char>>,
    pub tags: Seq<Seq<char>>,
    pub priority: i32,
    pub enabled: bool,
}

impl View for HookMetadata {
    type V = HookMetadataView;

    open spec fn view(&self) -> HookMetadataView {
        HookMetadataView {
            name: self.name@,
            display_name: opt_str_view(self.display_name),
            description: opt_str_view(self.description),
            trigger: self.trigger@,
            timing: self.timing,
            version: opt_str_view(self.version),
            author: opt_str_view(self.author),
            tags: self.tags.deep_view(),
            priority: self.priority,
            enabled: self.enabled,
        }
    }
}

/// Fresh hook metadata: the given name and trigger, timing `Before`,
/// priority 100, enabled, and nothing else set.
pub open spec fn new_hook_metadata(name: Seq<char>, trigger: Seq<char>) -> HookMetadataView {
    HookMetadataView {
        name,
        display_name: None,
        description: None,
        trigger,
        timing: TriggerTiming::Before,
        version: None,
        author: None,
        tags: Seq::empty(),
        priority: 100,
        enabled: true,
    }
}

impl HookMetadata {
    /// Create new hook metadata.
    pub fn new(name: &str, trigger: &str) -> (r: Self)
        ensures
            r@ == new_hook_metadata(name@, trigger@),
    {
        let r = HookMetadata {
            name: owned(name),
            display_name: None,
            description: None,
            trigger: owned(trigger),
            timing: TriggerTiming::Before,
            version: None,
            author: None,
            tags: Vec::new(),
            priority: default_priority(),
            enabled: default_enabled(),
        };
        assert(r.tags.deep_view() =~= Seq::<Seq<char>>::empty());
        r
    }

    /// Set the timing.
    pub fn with_timing(self, timing: TriggerTiming) -> (r: Self)
        ensures
            r@ == (HookMetadataView { timing, ..self@ }),
    {
        let mut r = self;
        r.timing = timing;
        r
    }

    /// Set the display name.
    pub fn with_display_name(self, display_name: &str) -> (r: Self)
        ensures
            r@ == (HookMetadataView { display_name: Some(display_name@), ..self@ }),
    {
        let mut r = self;
        r.display_name = Some(owned(display_name));
        r
    }

    /// Set the description.
    pub fn with_description(self, description: &str) -> (r: Self)
        ensures
            r@ == (HookMetadataView { description: Some(description@), ..self@ }),
    {
        let mut r = self;
        r.description = Some(owned(description));
        r
    }

    /// Set the priority.
    pub fn with_priority(self, priority: i32) -> (r: Self)
        ensures
            r@ == (HookMetadataView { priority, ..self@ }),
    {
        let mut r = self;
        r.priority = priority;
        r
    }

    /// Set enabled status.
    pub fn with_enabled(self, enabled: bool) -> (r: Self)
        ensures
            r@ == (HookMetadataView { enabled, ..self@ }),
    {
        let mut r = self;
        r.enabled = enabled;
        r
    }

    /// Add tags: the given tags follow the ones already there.
    pub fn with_tags(self, tags: Vec<String>) -> (r: Self)
        ensures
            r@ == (HookMetadataView { tags: self@.tags + tags.deep_view(), ..self@ }),
    {
        let ghost added = tags.deep_view();
        let mut r = self;
        let mut tags = tags;
        r.tags.append(&mut tags);
        assert(r.tags.deep_view() =~= self@.tags + added);
        r
    }
}

/// Plugin metadata.
#[derive(Debug, Clone)]
pub struct PluginMetadata {
    /// Plugin display name.
    pub name: String,
    /// Plugin version.
    pub version: String,
    /// Plugin description.
    pub description: Option<String>,
    /// Plugin author.
    pub author: Option<String>,
    /// Plugin homepage URL.
    pub homepage: Option<String>,
    /// Plugin repository URL.
    pub repository: Option<String>,
    /// Plugin license.
    pub license: Option<String>,
    /// Plugin keywords.
    pub keywords: Vec<String>,
    /// Plugin dependencies: package name to version requirement.
    pub dependencies: HashMap<String, String>,
    /// Required permissions.
    pub permissions: Vec<String>,
}

/// The mathematical value of a [`PluginMetadata`].
pub struct PluginMetadataView {
    pub name: Seq<char>,
    pub version: Seq<char>,
    pub description: Option<Seq<char>>,
    pub author: Option<Seq<char>>,
    pub homepage: Option<Seq<char>>,
    pub repository: Option<Seq<char>>,
    pub license: Option<Seq<char>>,
    pub keywords: Seq<Seq<char>>,
    pub dependencies: Map<String, String>,
    pub permissions: Seq<Seq<char>>,
}

impl View for PluginMetadata {
    type V = PluginMetadataView;

    open spec fn view(&self) -> PluginMetadataView {
        PluginMetadataView {
            name: self.name@,
            version: self.version@,
            description: opt_str_view(self.description),
            author: opt_str_view(self.author),
            homepage: opt_str_view(self.homepage),
            repository: opt_str_view(self.repository),
            license: opt_str_view(self.license),
            keywords: self.keywords.deep_view(),
            dependencies: self.dependencies@,
            permissions: self.permissions.deep_view(),
        }
    }
}

/// Fresh plugin metadata: the given name and version and nothing else set.
pub open spec fn new_plugin_metadata(name: Seq<char>, version: Seq<char>) -> PluginMetadataView {
    PluginMetadataView {
        name,
        version,
        description: None,
        author: None,
        homepage: None,
        repository: None,
        license: None,
        keywords: Seq::empty(),
        dependencies: Map::empty(),
        permissions: Seq::empty(),
    }
}

impl PluginMetadata {
    /// Create new plugin metadata.
    pub fn new(name: &str, version: &str) -> (r: Self)
        ensures
            r@ == new_plugin_metadata(name@, version@),
    {
        let r = PluginMetadata {
            name: owned(name),
            version: owned(version),
            description: None,
            author: None,
            homepage: None,
            repository: None,
            license: None,
            keywords: Vec::new(),
            dependencies: HashMap::new(),
            permissions: Vec::new(),
        };
        assert(r.keywords.deep_view() =~= Seq::<Seq<char>>::empty());
        assert(r.permissions.deep_view() =~= Seq::<Seq<char>>::empty());
        r
    }

    /// Set the description.
    pub fn with_description(self, description: &str) -> (r: Self)
        ensures
            r@ == (PluginMetadataView { description: Some(description@), ..self@ }),
    {
        let mut r = self;
        r.description = Some(owned(description));
        r
    }

    /// Set the author.
    pub fn with_author(self, author: &str) -> (r: Self)
        ensures
            r@ == (PluginMetadataView { author: Some(author@), ..self@ }),
    {
        let mut r = self;
        r.author = Some(owned(author));
        r
    }
}

} // verus!
