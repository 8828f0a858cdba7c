//! The chain of components being resolved, used to detect circular
//! dependencies while a module is built.
use crate::error::Error;
use crate::type_key::{type_id_debug, type_id_eq, type_id_text};
use std::any::TypeId;
use vstd::prelude::*;

verus! {

/// One step of a resolution: the component being built and the interface
/// it is built for.
#[derive(Clone, Copy, Debug, PartialEq)]
pub struct ResolveStep {
    pub component_type_id: TypeId,
    pub interface_type_id: TypeId,
}

impl View for ResolveStep {
    type V = (TypeId, TypeId);

    open spec fn view(&self) -> (TypeId, TypeId) {
        (self.component_type_id, self.interface_type_id)
    }
}

impl ResolveStep {
    /// Whether two steps are the same.
    pub fn same_step(&self, other: &ResolveStep) -> (r: bool)
        ensures
            r == (self@ == other@),
    {
        type_id_eq(&self.component_type_id, &other.component_type_id) && type_id_eq(
            &self.interface_type_id,
            &other.interface_type_id,
        )
    }
}

/// The components listed by the chain, as its debug rendering shows them:
/// the component of each step, separated by `", "`.
pub open spec fn steps_text(s: Seq<(TypeId, TypeId)>) -> Seq<char>
    decreases s.len(),
{
    if s.len() == 0 {
        Seq::empty()
    } else if s.len() == 1 {
        type_id_debug(s[0].0)
    } else {
        steps_text(s.drop_last()) + ", "@ + type_id_debug(s.last().0)
    }
}

/// The debug rendering of a chain: its components in brackets.
pub open spec fn chain_text(s: Seq<(TypeId, TypeId)>) -> Seq<char> {
    "["@ + steps_text(s) + "]"@
}

/// The message of the error raised when `step` is resolved again while it
/// is still being resolved.
pub open spec fn circular_message(step: (TypeId, TypeId), s: Seq<(TypeId, TypeId)>) -> Seq<char> {
    "Circular dependency detected while resolving "@ + type_id_debug(step.1)
        + ". Resolution chain: "@ + chain_text(s)
}

/// The steps currently being resolved, outermost first.
#[derive(Debug)]
pub struct ResolveChain {
    steps: Vec<ResolveStep>,
}

impl View for ResolveChain {
    type V = Seq<(TypeId, TypeId)>;

    closed spec fn view(&self) -> Seq<(TypeId, TypeId)> {
        self.steps@.map_values(|s: ResolveStep| s@)
    }
}

impl ResolveChain {
    /// No step is being resolved twice.
    #[verifier::type_invariant]
    closed spec fn no_repeats(self) -> bool {
        self@.no_duplicates()
    }

    /// An empty chain.
    pub fn new() -> (r: ResolveChain)
        ensures
            r@ == Seq::<(TypeId, TypeId)>::empty(),
    {
        let r = ResolveChain { steps: Vec::new() };
        assert(r@ =~= Seq::<(TypeId, TypeId)>::empty());
        r
    }

    /// The number of steps.
    pub fn len(&self) -> (r: usize)
        ensures
            r == self@.len(),
    {
        self.steps.len()
    }

    /// Whether `step` is being resolved.
    pub fn contains(&self, step: &ResolveStep) -> (r: bool)
        ensures
            r == self@.contains(step@),
    {
        let mut i: usize = 0;
        while i < self.steps.len()
            invariant
                i <= self.steps@.len(),
                self@.len() == self.steps@.len(),
                forall|j: int| 0 <= j < i ==> self@[j] != step@,
            decreases self.steps@.len() - i,
        {
            if self.steps[i].same_step(step) {
                assert(self@[i as int] == step@);
                return true;
            }
            i = i + 1;
        }
        false
    }

    /// The debug rendering of the chain.
    pub fn text(&self) -> (r: String)
        ensures
            r@ == chain_text(self@),
    {
        let mut body = String::new();
        let mut i: usize = 0;
        while i < self.steps.len()
            invariant
                i <= self.steps@.len(),
                self@.len() == self.steps@.len(),
                body@ == steps_text(self@.take(i as int)),
            decreases self.steps@.len() - i,
        {
            let name = type_id_text(&self.steps[i].component_type_id);
            if i > 0 {
                body.append(", ");
            }
            body.append(name.as_str());
            proof {
                let s = self@.take(i + 1);
                assert(s.drop_last() =~= self@.take(i as int));
                assert(s.last() == self@[i as int]);
                if i == 0 {
                    assert(body@ =~= type_id_debug(s[0].0));
                }
            }
            i = i + 1;
        }
        assert(self@.take(self@.len() as int) =~= self@);
        let mut r = String::from_str("[");
        r.append(body.as_str());
        r.append("]");
        r
    }

    /// The error for resolving `step` again while it is being resolved:
    /// it names the step's interface and the chain.
    pub fn circular_error(&self, step: &ResolveStep) -> (r: Error)
        ensures
            r matches Error::ResolveError(msg) && msg@ == circular_message(step@, self@),
    {
        let mut msg = String::from_str("Circular dependency detected while resolving ");
        let iface = type_id_text(&step.interface_type_id);
        msg.append(iface.as_str());
        msg.append(". Resolution chain: ");
        let chain = self.text();
        msg.append(chain.as_str());
        Error::ResolveError(msg)
    }

    /// Starts resolving `step`, which is not being resolved already.
    pub fn enter(&mut self, step: ResolveStep)
        requires
            !old(self)@.contains(step@),
        ensures
            final(self)@ == old(self)@.push(step@),
            final(self)@.no_duplicates(),
    {
        proof {
            use_type_invariant(&*self);
        }
        let mut steps = Vec::new();
        std::mem::swap(&mut steps, &mut self.steps);
        steps.push(step);
        proof {
            assert(steps@.map_values(|s: ResolveStep| s@) =~= old(self)@.push(step@));
        }
        self.steps = steps;
    }

    /// A copy of the chain.
    pub fn snapshot(&self) -> (r: ResolveChain)
        ensures
            r@ == self@,
    {
        proof {
            use_type_invariant(self);
        }
        let mut steps: Vec<ResolveStep> = Vec::new();
        let mut i: usize = 0;
        while i < self.steps.len()
            invariant
                i <= self.steps@.len(),
                steps@ == self.steps@.take(i as int),
            decreases self.steps@.len() - i,
        {
            let s = self.steps[i];
            steps.push(s);
            proof {
                assert(steps@ =~= self.steps@.take(i + 1));
            }
            i = i + 1;
        }
        proof {
            assert(self.steps@.take(self.steps@.len() as int) =~= self.steps@);
        }
        ResolveChain { steps }
    }
}

} // verus!
