//! The operand stack of the translator and the registers of the values on it.

use crate::bytecode::Register;
use crate::error::{TranslationError, TranslationErrorInner};
use crate::value::UntypedValue;
use vstd::prelude::*;

verus! {

/// One slot of the operand stack: where the value will be found when the code
/// runs.
#[derive(Clone, Copy, Debug, PartialEq, Eq, Structural)]
pub enum Provider {
    /// The value lives in a register.
    Register(Register),
    /// The value is known while translating.
    Const(UntypedValue),
}

/// Whether a slot holds a register above the locals: one that was acquired for
/// an intermediate value.
pub open spec fn is_dynamic(provider: Provider, len_locals: nat) -> bool {
    provider matches Provider::Register(register) && register.index >= len_locals
}

/// The number of slots that hold a register above the locals.
pub open spec fn count_dynamic(providers: Seq<Provider>, len_locals: nat) -> nat
    decreases providers.len(),
{
    if providers.len() == 0 {
        0
    } else {
        count_dynamic(providers.drop_last(), len_locals) + if is_dynamic(
            providers.last(),
            len_locals,
        ) {
            1nat
        } else {
            0nat
        }
    }
}

/// Pushing a slot adds it to the count if it holds a register above the
/// locals.
pub proof fn lemma_count_dynamic_push(providers: Seq<Provider>, provider: Provider, len_locals: nat)
    ensures
        count_dynamic(providers.push(provider), len_locals) == count_dynamic(providers, len_locals)
            + if is_dynamic(provider, len_locals) {
            1nat
        } else {
            0nat
        },
{
    assert(providers.push(provider).drop_last() == providers);
}

/// No more slots hold a register above the locals than there are slots.
pub proof fn lemma_count_dynamic_bound(providers: Seq<Provider>, len_locals: nat)
    ensures
        count_dynamic(providers, len_locals) <= providers.len(),
    decreases providers.len(),
{
    if providers.len() > 0 {
        lemma_count_dynamic_bound(providers.drop_last(), len_locals);
    }
}

/// Taking fewer slots from the bottom counts no more registers above the
/// locals.
pub proof fn lemma_count_dynamic_take(providers: Seq<Provider>, len_locals: nat, at: int)
    requires
        0 <= at <= providers.len(),
    ensures
        count_dynamic(providers.take(at), len_locals) <= count_dynamic(providers, len_locals),
        at < providers.len() && is_dynamic(providers[at], len_locals) ==> count_dynamic(
            providers.take(at),
            len_locals,
        ) < count_dynamic(providers, len_locals),
    decreases providers.len(),
{
    if at < providers.len() {
        let shorter = providers.drop_last();
        assert(shorter.take(at) == providers.take(at));
        if at < shorter.len() {
            lemma_count_dynamic_take(shorter, len_locals, at);
        } else {
            assert(shorter.take(at) == shorter);
        }
    } else {
        assert(providers.take(at) == providers);
    }
}

/// What a [`ValueStack`] holds.
pub struct ValueStackView {
    /// The slots, the top of the stack last.
    pub providers: Seq<Provider>,
    /// The number of parameters and locals of the function. They live in the
    /// registers below this index.
    pub len_locals: nat,
}

impl ValueStackView {
    /// The number of slots.
    pub open spec fn len(self) -> nat {
        self.providers.len()
    }

    /// The number of registers above the locals that the stack holds.
    pub open spec fn dynamics(self) -> nat {
        count_dynamic(self.providers, self.len_locals)
    }

    /// Whether a register is free for an intermediate value.
    pub open spec fn can_alloc_register(self) -> bool {
        self.len_locals + self.dynamics() <= u16::MAX
    }

    /// The register that the next intermediate value is given: the first above
    /// the locals and the intermediate values that the stack holds.
    pub open spec fn next_register(self) -> Register {
        Register { index: (self.len_locals + self.dynamics()) as u16 }
    }

    /// Whether the registers above the locals are held in the order in which
    /// they are acquired: each of them is the first register above the locals
    /// and the intermediate values below it on the stack.
    pub open spec fn is_ordered(self) -> bool {
        forall|at: int|
            0 <= at < self.providers.len() && is_dynamic(#[trigger] self.providers[at], self.len_locals)
                ==> self.providers[at]->Register_0.index == self.len_locals + count_dynamic(
                self.providers.take(at),
                self.len_locals,
            )
    }

    /// The stack with `provider` on top.
    pub open spec fn push(self, provider: Provider) -> ValueStackView {
        ValueStackView { providers: self.providers.push(provider), len_locals: self.len_locals }
    }

    /// The stack without its `n` topmost slots.
    pub open spec fn drop(self, n: nat) -> ValueStackView {
        ValueStackView {
            providers: self.providers.take(self.providers.len() - n),
            len_locals: self.len_locals,
        }
    }

    /// The slot that lies `depth` slots below the top: `peek(0)` is the top.
    pub open spec fn peek(self, depth: nat) -> Provider {
        self.providers[self.providers.len() - 1 - depth]
    }
}

/// The operand stack that mirrors the Wasm operand stack while translating.
///
/// A value that an instruction computes is given the lowest register above the
/// locals and above the intermediate values that are on the stack. The
/// register is free again when its slot is popped.
#[derive(Debug)]
pub struct ValueStack {
    providers: Vec<Provider>,
    len_locals: u16,
    dynamics: usize,
}

impl View for ValueStack {
    type V = ValueStackView;

    closed spec fn view(&self) -> ValueStackView {
        ValueStackView { providers: self.providers@, len_locals: self.len_locals as nat }
    }
}

impl ValueStack {
    /// The invariant of the stack: it knows how many registers above the
    /// locals it holds.
    pub closed spec fn wf(&self) -> bool {
        self.dynamics == count_dynamic(self.providers@, self.len_locals as nat)
    }

    /// Creates the empty stack of a function with `len_locals` parameters and
    /// locals.
    pub fn new(len_locals: u16) -> (res: ValueStack)
        ensures
            res.wf(),
            res@.providers == Seq::<Provider>::empty(),
            res@.len_locals == len_locals,
    {
        ValueStack { providers: Vec::new(), len_locals, dynamics: 0 }
    }

    /// The number of slots.
    pub fn len(&self) -> (res: usize)
        ensures
            res == self@.len(),
    {
        self.providers.len()
    }

    /// Whether the stack has no slot.
    pub fn is_empty(&self) -> (res: bool)
        ensures
            res == (self@.len() == 0),
    {
        self.providers.len() == 0
    }

    /// The number of parameters and locals of the function.
    pub fn len_locals(&self) -> (res: u16)
        ensures
            res == self@.len_locals,
    {
        self.len_locals
    }

    /// Pushes a slot, counting it if it holds a register above the locals.
    fn push_provider(&mut self, provider: Provider)
        requires
            old(self).wf(),
        ensures
            final(self).wf(),
            final(self)@ == old(self)@.push(provider),
    {
        proof {
            lemma_count_dynamic_push(self.providers@, provider, self.len_locals as nat);
            lemma_count_dynamic_bound(self.providers@, self.len_locals as nat);
        }
        let dynamic = match provider {
            Provider::Register(register) => register.index >= self.len_locals,
            Provider::Const(_) => false,
        };
        self.providers.push(provider);
        let len: usize = self.providers.len();
        if dynamic {
            assert(self.dynamics < len);
            self.dynamics = self.dynamics + 1;
        }
    }

    /// Pushes the register of the local variable with the given index.
    ///
    /// Fails if the function has no local variable with that index.
    pub fn push_local(&mut self, local_index: u32) -> (res: Result<(), TranslationError>)
        requires
            old(self).wf(),
        ensures
            final(self).wf(),
            res is Ok <==> local_index < old(self)@.len_locals,
            res is Ok ==> final(self)@ == old(self)@.push(
                Provider::Register(Register { index: local_index as u16 }),
            ),
            res matches Err(error) ==> error@ == TranslationErrorInner::LocalIndexOutOfBounds
                && final(self)@ == old(self)@,
    {
        if local_index >= self.len_locals as u32 {
            return Err(TranslationError::new(TranslationErrorInner::LocalIndexOutOfBounds));
        }
        self.push_provider(Provider::Register(Register::from_u16(local_index as u16)));
        Ok(())
    }

    /// Pushes a value that is known while translating.
    pub fn push_const(&mut self, value: UntypedValue)
        requires
            old(self).wf(),
        ensures
            final(self).wf(),
            final(self)@ == old(self)@.push(Provider::Const(value)),
    {
        self.push_provider(Provider::Const(value));
    }

    /// Pushes a register that holds a value already.
    pub fn push_register(&mut self, register: Register)
        requires
            old(self).wf(),
        ensures
            final(self).wf(),
            final(self)@ == old(self)@.push(Provider::Register(register)),
    {
        self.push_provider(Provider::Register(register));
    }

    /// Acquires a register for an intermediate value and pushes it.
    ///
    /// Fails if every register that an instruction can address is in use.
    pub fn push_dynamic(&mut self) -> (res: Result<Register, TranslationError>)
        requires
            old(self).wf(),
        ensures
            final(self).wf(),
            res is Ok <==> old(self)@.can_alloc_register(),
            res matches Ok(register) ==> register == old(self)@.next_register() && final(self)@
                == old(self)@.push(Provider::Register(register)),
            res matches Err(error) ==> error@ == TranslationErrorInner::RegisterOutOfBounds
                && final(self)@ == old(self)@,
    {
        let free: usize = (u16::MAX - self.len_locals) as usize;
        if self.dynamics > free {
            return Err(TranslationError::new(TranslationErrorInner::RegisterOutOfBounds));
        }
        let register = Register::from_u16(self.len_locals + self.dynamics as u16);
        self.push_provider(Provider::Register(register));
        Ok(register)
    }

    /// Removes the top slot and returns it.
    pub fn pop(&mut self) -> (res: Provider)
        requires
            old(self).wf(),
            old(self)@.len() >= 1,
        ensures
            final(self).wf(),
            res == old(self)@.peek(0),
            final(self)@ == old(self)@.drop(1),
    {
        let provider = self.providers.pop().unwrap();
        let dynamic = match provider {
            Provider::Register(register) => register.index >= self.len_locals,
            Provider::Const(_) => false,
        };
        proof {
            assert(old(self).providers@.drop_last() == self.providers@);
            assert(old(self).providers@.take(old(self).providers@.len() - 1) == self.providers@);
        }
        if dynamic {
            self.dynamics = self.dynamics - 1;
        }
        provider
    }

    /// Removes the two topmost slots and returns them, the lower first.
    pub fn pop2(&mut self) -> (res: (Provider, Provider))
        requires
            old(self).wf(),
            old(self)@.len() >= 2,
        ensures
            final(self).wf(),
            res.0 == old(self)@.peek(1),
            res.1 == old(self)@.peek(0),
            final(self)@ == old(self)@.drop(2),
    {
        let rhs = self.pop();
        let lhs = self.pop();
        proof {
            let before = old(self)@.providers;
            assert(before.take(before.len() - 1).take(before.len() - 2) == before.take(
                before.len() - 2,
            ));
        }
        (lhs, rhs)
    }

    /// The top slot.
    pub fn peek(&self) -> (res: Provider)
        requires
            self@.len() >= 1,
        ensures
            res == self@.peek(0),
    {
        self.providers[self.providers.len() - 1]
    }

    /// The two topmost slots, the lower first.
    pub fn peek2(&self) -> (res: (Provider, Provider))
        requires
            self@.len() >= 2,
        ensures
            res.0 == self@.peek(1),
            res.1 == self@.peek(0),
    {
        (self.providers[self.providers.len() - 2], self.providers[self.providers.len() - 1])
    }
}

/// On a stack that holds its registers in the order in which they are
/// acquired, no slot holds the register that is acquired next.
pub proof fn lemma_next_register_is_fresh(stack: ValueStackView, at: int)
    requires
        stack.is_ordered(),
        stack.can_alloc_register(),
        0 <= at < stack.providers.len(),
    ensures
        stack.providers[at] != Provider::Register(stack.next_register()),
{
    lemma_count_dynamic_take(stack.providers, stack.len_locals, at);
}

/// Pushing keeps the order of the registers if the pushed slot holds a
/// constant, a local, or the register that is acquired next.
pub proof fn lemma_push_keeps_order(stack: ValueStackView, provider: Provider)
    requires
        stack.is_ordered(),
        is_dynamic(provider, stack.len_locals) ==> provider->Register_0.index == stack.len_locals
            + stack.dynamics(),
    ensures
        stack.push(provider).is_ordered(),
{
    let pushed = stack.push(provider).providers;
    let n = stack.len_locals;
    assert forall|at: int|
        0 <= at < pushed.len() && is_dynamic(#[trigger] pushed[at], n) implies pushed[at]->Register_0.index
        == n + count_dynamic(pushed.take(at), n) by {
        if at < stack.providers.len() {
            assert(pushed.take(at) == stack.providers.take(at));
            assert(pushed[at] == stack.providers[at]);
        } else {
            assert(pushed.take(at) == stack.providers);
        }
    }
}

/// Popping keeps the order of the registers. A popped register above the
/// locals is the register that is acquired next after it was popped, as long
/// as the slots above it hold none.
pub proof fn lemma_drop_keeps_order(stack: ValueStackView, n: nat)
    requires
        stack.is_ordered(),
        n <= stack.providers.len(),
    ensures
        stack.drop(n).is_ordered(),
        stack.drop(n).dynamics() <= stack.dynamics(),
        n >= 1 && is_dynamic(stack.providers[stack.providers.len() - n], stack.len_locals)
            ==> stack.providers[stack.providers.len() - n]->Register_0.index == stack.len_locals
            + stack.drop(n).dynamics(),
{
    let rest = stack.drop(n).providers;
    let locals = stack.len_locals;
    assert forall|at: int|
        0 <= at < rest.len() && is_dynamic(#[trigger] rest[at], locals) implies rest[at]->Register_0.index
        == locals + count_dynamic(rest.take(at), locals) by {
        assert(rest.take(at) == stack.providers.take(at));
        assert(rest[at] == stack.providers[at]);
    }
    lemma_count_dynamic_take(stack.providers, stack.len_locals, stack.providers.len() - n);
}

} // verus!
