//! Hook definitions: validated metadata paired with a handler.
use vstd::prelude::*;
use crate::metadata::{new_hook_metadata, HookMetadata, HookMetadataView};
use crate::text::{all_ascii, chars_of, is_ascii_alnum, owned, push_char};
use crate::trigger::{dot_count, is_trigger, is_valid_trigger, lemma_trigger_shape};
use crate::types::{SdkError, TriggerTiming};

verus! {

/// A hook: its metadata and the handler that runs when the trigger fires.
pub struct HookFunction<H> {
    /// Hook metadata.
    pub metadata: HookMetadata,
    /// Hook handler.
    pub handler: H,
}

/// Whether `char::is_alphanumeric` holds of `c`.
pub uninterp spec fn char_is_alphanumeric(c: char) -> bool;

/// Trusted: `char::is_alphanumeric`, which holds of the characters with the
/// Unicode property `Alphabetic` or `Numeric`. Its result is named; only
/// for ASCII characters is it described: there it holds of letters and
/// digits.
#[verifier::external_body]
fn is_alphanumeric(c: char) -> (r: bool)
    ensures
        r == char_is_alphanumeric(c),
        (c as u32) < 128 ==> r == is_ascii_alnum(c),
{
    c.is_alphanumeric()
}

/// Every character that is not alphanumeric replaced by `_`.
pub open spec fn sanitize_name(s: Seq<char>) -> Seq<char> {
    s.map_values(|c: char| if char_is_alphanumeric(c) { c } else { '_' })
}

/// Every character that is not an ASCII letter or digit replaced by `_`:
/// what [`sanitize_name`] is on ASCII text.
pub open spec fn ascii_sanitize(s: Seq<char>) -> Seq<char> {
    s.map_values(|c: char| if is_ascii_alnum(c) { c } else { '_' })
}

/// The name a hook gets when none is given: the prefix, then the trigger
/// with every character that is not alphanumeric replaced by `_`.
pub open spec fn auto_hook_name(prefix: Seq<char>, trigger: Seq<char>) -> Seq<char> {
    prefix + sanitize_name(trigger)
}

/// What defining a hook from metadata `m` and `handler` gives: the first
/// failed check's error, or the hook.
pub open spec fn hook_outcome<H>(m: HookMetadataView, handler: H, r: Result<HookFunction<H>, SdkError>) -> bool {
    if m.name.len() == 0 {
        r matches Err(SdkError::HookValidation(msg)) && msg@ == "Hook name is required"@
    } else if m.trigger.len() == 0 {
        r matches Err(SdkError::HookValidation(msg)) && msg@ == "Hook trigger is required"@
    } else if !is_trigger(m.trigger) {
        r matches Err(SdkError::InvalidTrigger(t)) && t@ == m.trigger
    } else {
        r matches Ok(h) && h.metadata@ == m && h.handler == handler
    }
}

/// Defining a hook succeeds exactly when its metadata has a name and a
/// trigger that follows the grammar. Without a name it fails with a
/// validation error, whatever the trigger; with a name and a trigger that is
/// not of the grammar it fails with `InvalidTrigger` carrying the trigger.
/// The trigger of a defined hook opens with `@@rustpress.`, closes with
/// `@@`, holds exactly three dots, and holds a `-` only before its second
/// dot. A defined hook keeps the metadata and the handler it was given.
pub proof fn lemma_define_hook_trigger<H>(
    m: HookMetadataView,
    handler: H,
    r: Result<HookFunction<H>, SdkError>,
)
    requires
        hook_outcome(m, handler, r),
    ensures
        r is Ok <==> (m.name.len() > 0 && m.trigger.len() > 0 && is_trigger(m.trigger)),
        m.name.len() == 0 ==> r matches Err(SdkError::HookValidation(_)),
        m.name.len() > 0 && m.trigger.len() == 0 ==> r matches Err(SdkError::HookValidation(_)),
        m.name.len() > 0 && m.trigger.len() > 0 && !is_trigger(m.trigger) ==> (r matches Err(
            SdkError::InvalidTrigger(t),
        ) && t@ == m.trigger),
        r is Ok ==> {
            &&& m.trigger.take(12) == seq!['@', '@', 'r', 'u', 's', 't', 'p', 'r', 'e', 's', 's', '.']
            &&& m.trigger[m.trigger.len() - 2] == '@'
            &&& m.trigger[m.trigger.len() - 1] == '@'
            &&& dot_count(m.trigger) == 3
            &&& forall|i: int|
                0 <= i < m.trigger.len() && #[trigger] m.trigger[i] == '-' ==> dot_count(
                    m.trigger.take(i),
                ) == 1
        },
        r matches Ok(h) ==> h.metadata@ == m && h.handler == handler,
{
    if is_trigger(m.trigger) {
        lemma_trigger_shape(m.trigger);
    }
}

/// The name a hook gets without one keeps each alphanumeric character of
/// the trigger in its place and puts `_` in the place of every other one;
/// for an ASCII trigger, letters and digits are kept, all else becomes `_`.
pub proof fn lemma_auto_name_chars(prefix: Seq<char>, trigger: Seq<char>)
    ensures
        auto_hook_name(prefix, trigger).len() == prefix.len() + trigger.len(),
        auto_hook_name(prefix, trigger).take(prefix.len() as int) == prefix,
        forall|i: int| 0 <= i < trigger.len() ==> {
            let c = #[trigger] trigger[i];
            &&& char_is_alphanumeric(c) ==> auto_hook_name(prefix, trigger)[prefix.len() + i] == c
            &&& !char_is_alphanumeric(c) ==> auto_hook_name(prefix, trigger)[prefix.len() + i] == '_'
        },
        (prefix + ascii_sanitize(trigger)).len() == prefix.len() + trigger.len(),
        forall|i: int| 0 <= i < trigger.len() ==> {
            let c = #[trigger] trigger[i];
            let n = prefix + ascii_sanitize(trigger);
            &&& ('0' <= c && c <= '9') ==> n[prefix.len() + i] == c
            &&& ('a' <= c && c <= 'z') ==> n[prefix.len() + i] == c
            &&& ('A' <= c && c <= 'Z') ==> n[prefix.len() + i] == c
            &&& !is_ascii_alnum(c) ==> n[prefix.len() + i] == '_'
        },
{
    assert(auto_hook_name(prefix, trigger).take(prefix.len() as int) =~= prefix);
}

/// Define a hook function.
///
/// The metadata must name the hook and carry a valid trigger pattern.
pub fn define_hook<H>(metadata: HookMetadata, handler: H) -> (r: Result<HookFunction<H>, SdkError>)
    ensures
        hook_outcome(metadata@, handler, r),
        r matches Ok(h) ==> h.metadata == metadata,
{
    if metadata.name.as_str().is_empty() {
        return Err(SdkError::HookValidation(owned("Hook name is required")));
    }
    if metadata.trigger.as_str().is_empty() {
        return Err(SdkError::HookValidation(owned("Hook trigger is required")));
    }
    if !is_valid_trigger(metadata.trigger.as_str()) {
        let t = owned(metadata.trigger.as_str());
        return Err(SdkError::InvalidTrigger(t));
    }
    Ok(HookFunction { metadata, handler })
}

/// The prefix followed by the trigger with every character that is not
/// alphanumeric replaced by `_`.
pub fn auto_name(prefix: &str, trigger: &str) -> (r: String)
    ensures
        r@ == auto_hook_name(prefix@, trigger@),
        all_ascii(trigger@) ==> r@ == prefix@ + ascii_sanitize(trigger@),
{
    let mut r = owned(prefix);
    let v = chars_of(trigger);
    let mut i: usize = 0;
    while i < v.len()
        invariant
            i <= v.len(),
            v@ == trigger@,
            r@ == prefix@ + sanitize_name(trigger@.take(i as int)),
            all_ascii(trigger@) ==> r@ == prefix@ + ascii_sanitize(trigger@.take(i as int)),
        decreases v.len() - i,
    {
        let c = v[i];
        if is_alphanumeric(c) {
            push_char(&mut r, c);
        } else {
            push_char(&mut r, '_');
        }
        i = i + 1;
        assert(sanitize_name(trigger@.take(i as int)) =~= sanitize_name(
            trigger@.take(i - 1),
        ).push(if char_is_alphanumeric(c) { c } else { '_' }));
        assert(ascii_sanitize(trigger@.take(i as int)) =~= ascii_sanitize(trigger@.take(i - 1)).push(
            if is_ascii_alnum(c) { c } else { '_' },
        ));
        assert(all_ascii(trigger@) ==> (c as u32) < 128);
    }
    assert(trigger@.take(v.len() as int) =~= trigger@);
    r
}

/// The name of a hook built from a trigger: the given one, or the prefix
/// followed by the sanitised trigger.
pub open spec fn chosen_hook_name(name: Option<&str>, prefix: Seq<char>, trigger: Seq<char>) -> Seq<char> {
    match name {
        Some(n) => n@,
        None => auto_hook_name(prefix, trigger),
    }
}

fn hook_name(name: Option<&str>, prefix: &str, trigger: &str) -> (r: String)
    ensures
        r@ == chosen_hook_name(name, prefix@, trigger@),
        name is None && all_ascii(trigger@) ==> r@ == prefix@ + ascii_sanitize(trigger@),
{
    match name {
        Some(n) => owned(n),
        None => auto_name(prefix, trigger),
    }
}

/// Create a before hook (shorthand).
///
/// Without a name, the hook is named `before_` followed by the trigger with
/// every character that is not alphanumeric replaced by `_` (for an ASCII
/// trigger: every character but letters and digits).
pub fn before_hook<H>(trigger: &str, handler: H, name: Option<&str>) -> (r: Result<HookFunction<H>, SdkError>)
    ensures
        hook_outcome(
            HookMetadataView {
                timing: TriggerTiming::Before,
                ..new_hook_metadata(chosen_hook_name(name, "before_"@, trigger@), trigger@)
            },
            handler,
            r,
        ),
        name is None && all_ascii(trigger@) ==> hook_outcome(
            HookMetadataView {
                timing: TriggerTiming::Before,
                ..new_hook_metadata("before_"@ + ascii_sanitize(trigger@), trigger@)
            },
            handler,
            r,
        ),
{
    let hook_name = hook_name(name, "before_", trigger);
    let metadata = HookMetadata::new(hook_name.as_str(), trigger).with_timing(TriggerTiming::Before);
    define_hook(metadata, handler)
}

/// Create an after hook (shorthand).
///
/// Without a name, the hook is named `after_` followed by the trigger with
/// every character that is not alphanumeric replaced by `_` (for an ASCII
/// trigger: every character but letters and digits).
pub fn after_hook<H>(trigger: &str, handler: H, name: Option<&str>) -> (r: Result<HookFunction<H>, SdkError>)
    ensures
        hook_outcome(
            HookMetadataView {
                timing: TriggerTiming::After,
                ..new_hook_metadata(chosen_hook_name(name, "after_"@, trigger@), trigger@)
            },
            handler,
            r,
        ),
        name is None && all_ascii(trigger@) ==> hook_outcome(
            HookMetadataView {
                timing: TriggerTiming::After,
                ..new_hook_metadata("after_"@ + ascii_sanitize(trigger@), trigger@)
            },
            handler,
            r,
        ),
{
    let hook_name = hook_name(name, "after_", trigger);
    let metadata = HookMetadata::new(hook_name.as_str(), trigger).with_timing(TriggerTiming::After);
    define_hook(metadata, handler)
}

} // verus!
