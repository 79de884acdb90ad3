//! Keyboard symbol-map configuration and the keymap-initialization outcome.
//!
//! Before a newly attached keyboard is offered to handler code it is given a
//! symbol map, so that later key events carry symbolic meaning. The five
//! compilation inputs (rules, model, layout, variant, options) come from
//! optional process-wide configuration values; each defaults to the empty
//! string when unset. The symbol-map compiler itself is an external
//! collaborator: the surrounding process runs it and reports back whether the
//! compilation context could be created and whether the keymap compiled, and
//! this module decides what that outcome means. Both failure forms are fatal.
//! On success the device also receives a fixed, non-configurable key-repeat
//! policy.

use vstd::prelude::*;

use crate::dispatch::Fault;

verus! {

/// Key-repeat rate in events per second, applied to every keyboard.
pub const DEFAULT_REPEAT_RATE: i32 = 25;

/// Delay in milliseconds before key repeat begins, applied to every keyboard.
pub const DEFAULT_REPEAT_DELAY: i32 = 600;

/// The five inputs handed to the symbol-map compiler for a keyboard.
pub struct KeymapConfig {
    pub rules: String,
    pub model: String,
    pub layout: String,
    pub variant: String,
    pub options: String,
}

/// The characters of an optional configuration value, empty when unset.
pub open spec fn value_or_empty(v: Option<String>) -> Seq<char> {
    match v {
        Some(s) => s@,
        None => Seq::empty(),
    }
}

/// Replace an unset configuration value by the empty string.
fn or_empty(v: Option<String>) -> (r: String)
    ensures
        r@ == value_or_empty(v),
{
    match v {
        Some(s) => s,
        None => String::new(),
    }
}

/// Assemble the symbol-map configuration from the five optional
/// configuration values. Each field takes the given value, or the empty
/// string where the value is unset; assembly itself never fails.
pub fn keymap_config_from_values(
    rules: Option<String>,
    model: Option<String>,
    layout: Option<String>,
    variant: Option<String>,
    options: Option<String>,
) -> (c: KeymapConfig)
    ensures
        c.rules@ == value_or_empty(rules),
        c.model@ == value_or_empty(model),
        c.layout@ == value_or_empty(layout),
        c.variant@ == value_or_empty(variant),
        c.options@ == value_or_empty(options),
{
    KeymapConfig {
        rules: or_empty(rules),
        model: or_empty(model),
        layout: or_empty(layout),
        variant: or_empty(variant),
        options: or_empty(options),
    }
}

/// The fixed key-repeat policy applied to every keyboard device.
#[derive(Clone, Copy, Debug, PartialEq, Eq, Structural)]
pub struct RepeatInfo {
    pub rate: i32,
    pub delay: i32,
}

/// The key-repeat policy this layer applies: 25 events per second, after a
/// 600 millisecond delay. These defaults are unconditional.
pub fn default_repeat_info() -> (r: RepeatInfo)
    ensures
        r.rate == 25,
        r.delay == 600,
{
    RepeatInfo { rate: DEFAULT_REPEAT_RATE, delay: DEFAULT_REPEAT_DELAY }
}

/// Decide what the symbol-map compiler's outcome means for keymap
/// initialization. A missing compilation context is fatal; a failed
/// compilation within a good context is fatal; only when both steps
/// succeeded does initialization complete, and the device then receives
/// the fixed repeat policy.
pub fn keymap_build_outcome(context_created: bool, keymap_compiled: bool) -> (r: Result<
    RepeatInfo,
    Fault,
>)
    ensures
        (r is Ok) <==> (context_created && keymap_compiled),
        r matches Ok(info) ==> info.rate == 25 && info.delay == 600,
        (r == Err::<RepeatInfo, Fault>(Fault::KeymapContextFailed)) <==> !context_created,
        (r == Err::<RepeatInfo, Fault>(Fault::KeymapCompileFailed)) <==> (context_created
            && !keymap_compiled),
{
    if !context_created {
        Err(Fault::KeymapContextFailed)
    } else if !keymap_compiled {
        Err(Fault::KeymapCompileFailed)
    } else {
        Ok(default_repeat_info())
    }
}

} // verus!
