//! Call options `f{value: v, salt: s, gas: g}`: which option supplies each modifier, and
//! how each option's value is brought to `ui256`.

use vstd::prelude::*;

use crate::built_in::BuiltIn;

verus! {

/// A call option, as far as its capture reads it.
#[derive(Debug, Clone, Copy, PartialEq, Eq, Structural)]
pub struct CallOptionFacts {
    /// The built-in the option's name resolves to.
    pub name: Option<BuiltIn>,
    /// Whether the option's value is a string literal.
    pub string_literal: bool,
}

/// How an option's value is emitted and brought to `ui256`.
#[derive(Debug, Clone, Copy, PartialEq, Eq, Structural)]
pub enum OptionEmission {
    /// `value` / `gas`: the value, `sol.cast` to `ui256`.
    CastToWord,
    /// `salt` given as a string literal: the literal as `bytes32`, then `sol.bytes_cast`
    /// to `ui256`.
    LiteralSaltToWord,
    /// `salt`: the `bytes32` value, `sol.bytes_cast` to `ui256`.
    SaltToWord,
}

/// The options a call captured: for each modifier, the index of the option that supplies
/// it (a dropped modifier sends zero value or salt and forwards all gas), and how each
/// option, in source order, is emitted.
pub struct CapturedOptions {
    /// The option that supplies `value`.
    pub value: Option<usize>,
    /// The option that supplies `salt`.
    pub salt: Option<usize>,
    /// The option that supplies `gas`.
    pub gas: Option<usize>,
    /// The emission of each option, in source order.
    pub emissions: Vec<OptionEmission>,
}

/// Whether every option names `value`, `salt` or `gas`.
pub open spec fn spec_options_valid(options: Seq<CallOptionFacts>) -> bool {
    forall|i: int| 0 <= i < options.len() ==> spec_is_call_option(#[trigger] options[i].name)
}

/// Whether a name is a call-option built-in.
pub open spec fn spec_is_call_option(name: Option<BuiltIn>) -> bool {
    name == Some(BuiltIn::CallOptionValue) || name == Some(BuiltIn::CallOptionSalt) || name == Some(
        BuiltIn::CallOptionGas,
    )
}

/// The index of the last option named `name`, if any: evaluated in source order, a later
/// option of the same name replaces an earlier one.
pub open spec fn spec_last_option(options: Seq<CallOptionFacts>, name: BuiltIn) -> Option<int>
    decreases options.len(),
{
    if options.len() == 0 {
        None
    } else if options.last().name == Some(name) {
        Some(options.len() - 1)
    } else {
        spec_last_option(options.drop_last(), name)
    }
}

/// The emission of one option.
pub open spec fn spec_option_emission(option: CallOptionFacts) -> OptionEmission {
    if option.name == Some(BuiltIn::CallOptionSalt) {
        if option.string_literal {
            OptionEmission::LiteralSaltToWord
        } else {
            OptionEmission::SaltToWord
        }
    } else {
        OptionEmission::CastToWord
    }
}

/// An index as an optional integer.
pub open spec fn spec_index(index: Option<usize>) -> Option<int> {
    match index {
        Some(i) => Some(i as int),
        None => None,
    }
}

/// Call options of a call.
pub struct CallOptions;

impl CallOptions {
    /// Captures the options in source order: each is emitted (a salt as `bytes32`, a string
    /// literal salt as a `bytes32` literal) and brought to `ui256`; the last option of each
    /// name supplies that modifier.
    pub fn capture(options: &Vec<CallOptionFacts>) -> (result: CapturedOptions)
        requires
            spec_options_valid(options@),
        ensures
            spec_index(result.value) == spec_last_option(options@, BuiltIn::CallOptionValue),
            spec_index(result.salt) == spec_last_option(options@, BuiltIn::CallOptionSalt),
            spec_index(result.gas) == spec_last_option(options@, BuiltIn::CallOptionGas),
            result.emissions@.len() == options@.len(),
            forall|i: int| 0 <= i < options@.len() ==> #[trigger] result.emissions@[i] == spec_option_emission(
                options@[i],
            ),
    {
        let mut value: Option<usize> = None;
        let mut salt: Option<usize> = None;
        let mut gas: Option<usize> = None;
        let mut emissions: Vec<OptionEmission> = Vec::new();
        let mut i: usize = 0;
        while i < options.len()
            invariant
                i <= options@.len(),
                spec_options_valid(options@),
                spec_index(value) == spec_last_option(options@.subrange(0, i as int), BuiltIn::CallOptionValue),
                spec_index(salt) == spec_last_option(options@.subrange(0, i as int), BuiltIn::CallOptionSalt),
                spec_index(gas) == spec_last_option(options@.subrange(0, i as int), BuiltIn::CallOptionGas),
                emissions@.len() == i,
                forall|j: int| 0 <= j < i ==> #[trigger] emissions@[j] == spec_option_emission(options@[j]),
            decreases options@.len() - i,
        {
            let option = options[i];
            proof {
                let prefix = options@.subrange(0, i + 1);
                assert(prefix.drop_last() =~= options@.subrange(0, i as int));
                assert(prefix.last() == option);
                assert(spec_is_call_option(options@[i as int].name));
            }
            match option.name {
                Some(BuiltIn::CallOptionValue) => {
                    value = Some(i);
                    emissions.push(OptionEmission::CastToWord);
                },
                Some(BuiltIn::CallOptionSalt) => {
                    salt = Some(i);
                    if option.string_literal {
                        emissions.push(OptionEmission::LiteralSaltToWord);
                    } else {
                        emissions.push(OptionEmission::SaltToWord);
                    }
                },
                _ => {
                    gas = Some(i);
                    emissions.push(OptionEmission::CastToWord);
                },
            }
            i += 1;
        }
        proof {
            assert(options@.subrange(0, i as int) =~= options@);
        }
        CapturedOptions { value, salt, gas, emissions }
    }
}

/// The option that supplies a modifier has that name, and no later option does.
pub proof fn lemma_last_option_wins(options: Seq<CallOptionFacts>, name: BuiltIn)
    ensures
        spec_last_option(options, name) matches Some(i) ==> {
            &&& 0 <= i < options.len()
            &&& options[i].name == Some(name)
            &&& forall|j: int| i < j < options.len() ==> #[trigger] options[j].name != Some(name)
        },
        spec_last_option(options, name) is None ==> forall|j: int| 0 <= j < options.len()
            ==> #[trigger] options[j].name != Some(name),
    decreases options.len(),
{
    if options.len() > 0 {
        let rest = options.drop_last();
        let n = options.len() - 1;
        lemma_last_option_wins(rest, name);
        if options.last().name != Some(name) {
            assert(spec_last_option(options, name) == spec_last_option(rest, name));
            match spec_last_option(rest, name) {
                Some(i) => {
                    assert forall|j: int| i < j < options.len() implies #[trigger] options[j].name
                        != Some(name) by {
                        if j < n {
                            assert(rest[j] == options[j]);
                        }
                    }
                },
                None => {
                    assert forall|j: int| 0 <= j < options.len() implies #[trigger] options[j].name
                        != Some(name) by {
                        if j < n {
                            assert(rest[j] == options[j]);
                        }
                    }
                },
            }
        }
    }
}

} // verus!
