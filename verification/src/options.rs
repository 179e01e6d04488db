//! Per-call overrides for a model invocation.

use vstd::prelude::*;

verus! {

/// Optional overrides for one generation call. A field that is absent leaves the
/// backend's own default in force.
///
/// The temperature is held as the bit pattern of a single-precision number and
/// is never interpreted here: it is carried to the backend as it was given.
#[derive(Debug, Clone, PartialEq, Eq)]
pub struct CallOptions {
    pub temperature_bits: Option<u32>,
    pub max_tokens: Option<u32>,
    pub stop_words: Option<Vec<String>>,
}

/// The mathematical model of [`CallOptions`].
pub struct CallOptionsView {
    pub temperature_bits: Option<u32>,
    pub max_tokens: Option<u32>,
    pub stop_words: Option<Seq<Seq<char>>>,
}

/// The model of an optional list of stop words.
pub open spec fn stop_words_view(stop_words: Option<Vec<String>>) -> Option<Seq<Seq<char>>> {
    match stop_words {
        Some(words) => Some(words.deep_view()),
        None => None,
    }
}

impl View for CallOptions {
    type V = CallOptionsView;

    open spec fn view(&self) -> CallOptionsView {
        CallOptionsView {
            temperature_bits: self.temperature_bits,
            max_tokens: self.max_tokens,
            stop_words: stop_words_view(self.stop_words),
        }
    }
}

/// Options that override nothing.
pub open spec fn no_overrides() -> CallOptionsView {
    CallOptionsView { temperature_bits: None, max_tokens: None, stop_words: None }
}

/// `base` with every field that `overrides` supplies replaced by it.
pub open spec fn overlay(base: CallOptionsView, overrides: CallOptionsView) -> CallOptionsView {
    CallOptionsView {
        temperature_bits: if overrides.temperature_bits is Some {
            overrides.temperature_bits
        } else {
            base.temperature_bits
        },
        max_tokens: if overrides.max_tokens is Some {
            overrides.max_tokens
        } else {
            base.max_tokens
        },
        stop_words: if overrides.stop_words is Some {
            overrides.stop_words
        } else {
            base.stop_words
        },
    }
}

/// The options in force for one call: the overrides that were supplied, laid
/// over options that override nothing.
pub open spec fn per_call(supplied: Option<CallOptionsView>) -> CallOptionsView {
    match supplied {
        Some(overrides) => overlay(no_overrides(), overrides),
        None => no_overrides(),
    }
}

/// The model of optional call options.
pub open spec fn supplied_view(supplied: Option<CallOptions>) -> Option<CallOptionsView> {
    match supplied {
        Some(options) => Some(options@),
        None => None,
    }
}

impl Default for CallOptions {
    fn default() -> (options: CallOptions)
        ensures
            options@ == no_overrides(),
    {
        CallOptions { temperature_bits: None, max_tokens: None, stop_words: None }
    }
}

impl CallOptions {
    /// Sets the temperature, given as the bit pattern of a single-precision number.
    pub fn with_temperature_bits(self, bits: u32) -> (options: CallOptions)
        ensures
            options@ == (CallOptionsView { temperature_bits: Some(bits), ..self@ }),
    {
        CallOptions { temperature_bits: Some(bits), ..self }
    }

    /// Sets the greatest number of tokens to generate.
    pub fn with_max_tokens(self, max_tokens: u32) -> (options: CallOptions)
        ensures
            options@ == (CallOptionsView { max_tokens: Some(max_tokens), ..self@ }),
    {
        CallOptions { max_tokens: Some(max_tokens), ..self }
    }

    /// Sets the sequences at which generation stops.
    pub fn with_stop_words(self, stop_words: Vec<String>) -> (options: CallOptions)
        ensures
            options@ == (CallOptionsView { stop_words: Some(stop_words.deep_view()), ..self@ }),
    {
        CallOptions { stop_words: Some(stop_words), ..self }
    }

    /// Lays `overrides` over these options: a field that `overrides` supplies
    /// replaces the field here, and every other field stays as it is.
    pub fn apply(self, overrides: CallOptions) -> (options: CallOptions)
        ensures
            options@ == overlay(self@, overrides@),
    {
        CallOptions {
            temperature_bits: match overrides.temperature_bits {
                Some(bits) => Some(bits),
                None => self.temperature_bits,
            },
            max_tokens: match overrides.max_tokens {
                Some(max_tokens) => Some(max_tokens),
                None => self.max_tokens,
            },
            stop_words: match overrides.stop_words {
                Some(words) => Some(words),
                None => self.stop_words,
            },
        }
    }

    /// The options in force for one call, from the overrides that the caller
    /// supplied, if any.
    pub fn for_call(supplied: Option<CallOptions>) -> (options: CallOptions)
        ensures
            options@ == per_call(supplied_view(supplied)),
    {
        match supplied {
            Some(overrides) => CallOptions::default().apply(overrides),
            None => CallOptions::default(),
        }
    }
}

/// Every override that is supplied is in force for the call, and a field that
/// is not supplied stays absent, so that the backend's default applies.
pub proof fn lemma_supplied_overrides_are_in_force(overrides: CallOptionsView)
    ensures
        per_call(Some(overrides)) == overrides,
        per_call(None) == no_overrides(),
{
}

/// Laying options that override nothing over `base` leaves `base` as it is, and
/// laying the same overrides twice is the same as laying them once.
pub proof fn lemma_overlay_laws(base: CallOptionsView, overrides: CallOptionsView)
    ensures
        overlay(base, no_overrides()) == base,
        overlay(overlay(base, overrides), overrides) == overlay(base, overrides),
{
}

} // verus!
