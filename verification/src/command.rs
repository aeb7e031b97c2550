//! The builder the generator synthesizes for its leading example: a
//! record with one required plain field, two sequence fields with append
//! operations (one of them keeping a separate full-replace setter, the
//! other's append replacing it by the collision rule), and one optional
//! field. The contracts here state the runtime behaviour the generated
//! code must have.

use vstd::prelude::*;

verus! {

broadcast use vstd::std_specs::vec::group_vec_axioms, vstd::seq::group_seq_axioms;

/// The record type the builder produces.
pub struct Command {
    pub executable: String,
    pub args: Vec<String>,
    pub env: Vec<String>,
    pub current_dir: Option<String>,
}

/// The companion builder: one slot per field. The plain field gets an
/// optional-wrapped slot; the sequence and optional fields keep their own
/// types, with no double wrapping.
pub struct CommandBuilder {
    pub executable: Option<String>,
    pub args: Vec<String>,
    pub env: Vec<String>,
    pub current_dir: Option<String>,
}

/// An element-wise copy of a list of texts.
#[verifier::loop_isolation(false)]
fn clone_strings(v: &Vec<String>) -> (r: Vec<String>)
    ensures
        r@ == v@,
{
    let mut r: Vec<String> = Vec::new();
    let mut k: usize = 0;
    while k < v.len()
        invariant
            k <= v.len(),
            r@.len() == k,
            forall|j: int| 0 <= j < k ==> r@[j] == v@[j],
        decreases v.len() - k,
    {
        r.push(v[k].clone());
        k = k + 1;
    }
    proof {
        assert(r@ =~= v@);
    }
    r
}

/// A copy of an optional text.
fn clone_opt_string(v: &Option<String>) -> (r: Option<String>)
    ensures
        r == *v,
{
    match v {
        Some(s) => Some(s.clone()),
        None => None,
    }
}

impl Command {
    /// A fresh builder with every slot at its initialized-empty state.
    pub fn builder() -> (b: CommandBuilder)
        ensures
            b.executable is None,
            b.args@ == Seq::<String>::empty(),
            b.env@ == Seq::<String>::empty(),
            b.current_dir is None,
    {
        CommandBuilder { executable: None, args: Vec::new(), env: Vec::new(), current_dir: None }
    }
}

impl CommandBuilder {
    /// Chainable setter for the required plain field; the last call wins.
    pub fn executable(&mut self, executable: String) -> (r: &mut Self)
        ensures
            *r == (CommandBuilder { executable: Some(executable), ..*old(self) }),
            *final(self) == *final(r),
    {
        self.executable = Some(executable);
        self
    }

    /// Full replacement of the `args` sequence slot.
    pub fn args(&mut self, args: Vec<String>) -> (r: &mut Self)
        ensures
            *r == (CommandBuilder { args: args, ..*old(self) }),
            *final(self) == *final(r),
    {
        self.args = args;
        self
    }

    /// The append operation of the `args` field: pushes one element onto
    /// the sequence slot, keeping everything already there.
    pub fn arg(&mut self, arg: String) -> (r: &mut Self)
        ensures
            r.executable == old(self).executable,
            r.args@ == old(self).args@.push(arg),
            r.env == old(self).env,
            r.current_dir == old(self).current_dir,
            *final(self) == *final(r),
    {
        self.args.push(arg);
        self
    }

    /// The append operation of the `env` field; its name collides with the
    /// field's own, so it replaces the full-replace setter entirely.
    pub fn env(&mut self, env: String) -> (r: &mut Self)
        ensures
            r.executable == old(self).executable,
            r.args == old(self).args,
            r.env@ == old(self).env@.push(env),
            r.current_dir == old(self).current_dir,
            *final(self) == *final(r),
    {
        self.env.push(env);
        self
    }

    /// Setter for the optional field: takes the inner type and stores it.
    pub fn current_dir(&mut self, current_dir: String) -> (r: &mut Self)
        ensures
            *r == (CommandBuilder { current_dir: Some(current_dir), ..*old(self) }),
            *final(self) == *final(r),
    {
        self.current_dir = Some(current_dir);
        self
    }

    /// Finalizes the builder. It fails exactly when the required plain
    /// field was never set, naming that field; the optional and sequence
    /// slots never make it fail, an untouched sequence slot comes out as
    /// the empty sequence, and on success every field of the entity holds
    /// the slot's current value. The builder itself is left unchanged, so
    /// it stays reusable after a successful build.
    pub fn build(&mut self) -> (r: Result<Command, &'static str>)
        ensures
            *final(self) == *old(self),
            match r {
                Ok(c) => old(self).executable matches Some(e) && c.executable == e && c.args@
                    == old(self).args@ && c.env@ == old(self).env@ && c.current_dir == old(
                    self,
                ).current_dir,
                Err(m) => old(self).executable is None && m@ == "executable is not set"@,
            },
    {
        match &self.executable {
            Some(e) => Ok(
                Command {
                    executable: e.clone(),
                    args: clone_strings(&self.args),
                    env: clone_strings(&self.env),
                    current_dir: clone_opt_string(&self.current_dir),
                },
            ),
            None => Err("executable is not set"),
        }
    }
}

/// Appending one element at a time.
pub open spec fn push_fn() -> spec_fn(Seq<String>, String) -> Seq<String> {
    |acc: Seq<String>, x: String| acc.push(x)
}

/// The append operations accumulate: starting from any slot contents,
/// appending the items of `items` one at a time, in order, leaves the
/// slot holding the old contents followed by exactly those items.
pub proof fn lemma_appends_accumulate(init: Seq<String>, items: Seq<String>)
    ensures
        items.fold_left(init, push_fn()) == init + items,
    decreases items.len(),
{
    if items.len() == 0 {
        assert(init + items =~= init);
    } else {
        lemma_appends_accumulate(init, items.drop_last());
        assert(init + items =~= (init + items.drop_last()).push(items.last()));
    }
}

} // verus!
