//! The choice of a model: ordered by the interactions that made it, whatever order they arrive in.
use crate::numbers::{signed_fault, signed_number, signed_of};
use crate::text::{byte_len, same, utf8_len};
use vstd::prelude::*;

verus! {

/// What is stored of an earlier handling of the same interaction.
#[derive(Debug)]
pub struct EarlierChoice {
    pub thread: String,
    pub model: String,
    pub applied: bool,
}

/// How a choice is stored.
#[derive(Clone, Copy, Debug, PartialEq, Eq, Structural)]
pub enum Choice {
    /// It was handled before, with this outcome.
    Again(bool),
    /// It is the newest: it applies, with this place in the order.
    Apply(i64),
    /// A newer choice applies.
    Superseded,
}

/// What is wrong with a choice.
pub open spec fn choice_objection(
    interaction: Seq<char>,
    thread: Seq<char>,
    model: Seq<char>,
    direct: bool,
    earlier: Option<EarlierChoice>,
) -> Option<Seq<char>> {
    let order = signed_of(interaction);
    if order is None {
        signed_fault(interaction)
    } else if !(order->0 > 0 && utf8_len(model) <= 128 && model.len() > 0) {
        Some("invalid model selection identity"@)
    } else if !direct {
        Some("direct model selection requires direct runtime"@)
    } else if earlier is Some && !(earlier->0.thread@ == thread && earlier->0.model@ == model) {
        Some("model selection interaction changed"@)
    } else {
        None
    }
}

/// How a choice is stored. `latest` is the place in the order of the choice that applies now.
pub fn select_direct_model(
    interaction: &str,
    thread: &str,
    model: &str,
    direct: bool,
    earlier: Option<EarlierChoice>,
    latest: i64,
) -> (r: Result<Choice, &'static str>)
    ensures
        match choice_objection(interaction@, thread@, model@, direct, earlier) {
            Some(e) => r is Err && r->Err_0@ == e,
            None => r == Ok::<Choice, &'static str>(
                match earlier {
                    Some(c) => Choice::Again(c.applied),
                    None => if signed_of(interaction@)->0 > latest {
                        Choice::Apply(signed_of(interaction@)->0 as i64)
                    } else {
                        Choice::Superseded
                    },
                },
            ),
        },
{
    let order: i64 = match signed_number(interaction) {
        Ok(n) => n,
        Err(e) => return Err(e),
    };
    if !(order > 0 && byte_len(model) <= 128 && !model.is_empty()) {
        return Err("invalid model selection identity");
    }
    if !direct {
        return Err("direct model selection requires direct runtime");
    }
    match earlier {
        Some(c) => {
            if same(c.thread.as_str(), thread) && same(c.model.as_str(), model) {
                Ok(Choice::Again(c.applied))
            } else {
                Err("model selection interaction changed")
            }
        },
        None => {
            if order > latest {
                Ok(Choice::Apply(order))
            } else {
                Ok(Choice::Superseded)
            }
        },
    }
}

/// The model that applies and its place in the order.
pub struct Selected {
    pub latest: int,
    pub model: Seq<char>,
}

/// The model that applies after a choice with a place in the order.
pub open spec fn chosen(s: Selected, order: int, model: Seq<char>) -> Selected {
    if order > s.latest {
        Selected { latest: order, model }
    } else {
        s
    }
}

/// The model that applies after the first `n` of some choices.
pub open spec fn chosen_all(s: Selected, choices: Seq<(int, Seq<char>)>, n: nat) -> Selected
    decreases n,
{
    if n == 0 || n > choices.len() {
        s
    } else {
        chosen(chosen_all(s, choices, (n - 1) as nat), choices[n - 1].0, choices[n - 1].1)
    }
}

/// A choice that arrives again changes nothing.
pub proof fn repeated_choices_change_nothing(s: Selected, order: int, model: Seq<char>)
    ensures
        chosen(chosen(s, order, model), order, model) == chosen(s, order, model),
{
}

/// The newest choice applies, whatever order the choices arrive in.
pub proof fn newest_choice_applies(s: Selected, choices: Seq<(int, Seq<char>)>, k: int)
    requires
        0 <= k < choices.len(),
        choices[k].0 > s.latest,
        forall|i: int| 0 <= i < choices.len() && i != k ==> (#[trigger] choices[i]).0 < choices[k].0,
    ensures
        chosen_all(s, choices, choices.len()) == (Selected {
            latest: choices[k].0,
            model: choices[k].1,
        }),
{
    lemma_newest(s, choices, k, choices.len());
}

proof fn lemma_newest(s: Selected, choices: Seq<(int, Seq<char>)>, k: int, n: nat)
    requires
        0 <= k < choices.len(),
        n <= choices.len(),
        choices[k].0 > s.latest,
        forall|i: int| 0 <= i < choices.len() && i != k ==> (#[trigger] choices[i]).0 < choices[k].0,
    ensures
        n <= k ==> chosen_all(s, choices, n).latest < choices[k].0,
        n > k ==> chosen_all(s, choices, n) == (Selected {
            latest: choices[k].0,
            model: choices[k].1,
        }),
    decreases n,
{
    if n > 0 {
        lemma_newest(s, choices, k, (n - 1) as nat);
        if n - 1 != k {
            assert(choices[n - 1].0 < choices[k].0);
        }
    }
}

} // verus!
