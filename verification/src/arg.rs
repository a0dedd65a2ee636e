//! Argument descriptors and the call builder.
//!
//! A call names every positional slot of the remote procedure.  Slots that the
//! caller left open carry the value the daemon would assume anyway; the builder
//! drops the run of such slots at the end of the list, so that only what is
//! needed goes over the wire, and keeps every other one in its place.

use vstd::prelude::*;

verus! {

/// One positional slot of a call.
#[derive(Debug, PartialEq)]
pub enum Arg<V> {
    /// A mandatory argument.
    Required(V),
    /// An optional argument that the caller supplied.
    OptionalSet(V),
    /// An optional argument that the caller left open, with the value that
    /// stands in for it when a later slot has to be reached.
    OptionalDefault(V),
}

impl<V> Arg<V> {
    /// The value the slot carries, whatever its kind.
    pub open spec fn value(self) -> V {
        match self {
            Arg::Required(v) => v,
            Arg::OptionalSet(v) => v,
            Arg::OptionalDefault(v) => v,
        }
    }

    /// Whether the caller left the slot open.
    pub open spec fn is_default(self) -> bool {
        self is OptionalDefault
    }

    /// A mandatory slot.
    pub fn required(value: V) -> (arg: Arg<V>)
        ensures
            arg == Arg::Required(value),
    {
        Arg::Required(value)
    }

    /// An optional slot: the caller's value if there is one, else `default`.
    pub fn optional(value: Option<V>, default: V) -> (arg: Arg<V>)
        ensures
            arg == optional_arg(value, default),
    {
        match value {
            Some(v) => Arg::OptionalSet(v),
            None => Arg::OptionalDefault(default),
        }
    }

    /// Executable form of [`Arg::is_default`].
    pub fn left_open(&self) -> (open: bool)
        ensures
            open == self.is_default(),
    {
        match self {
            Arg::OptionalDefault(_) => true,
            _ => false,
        }
    }

    /// The value the slot carries, left in its place.
    pub fn value_ref(&self) -> (v: &V)
        ensures
            *v == self.value(),
    {
        match self {
            Arg::Required(v) => v,
            Arg::OptionalSet(v) => v,
            Arg::OptionalDefault(v) => v,
        }
    }

    /// Unwraps the slot to the value it carries.
    pub fn into_value(self) -> (v: V)
        ensures
            v == self.value(),
    {
        match self {
            Arg::Required(v) => v,
            Arg::OptionalSet(v) => v,
            Arg::OptionalDefault(v) => v,
        }
    }
}

/// The slot that [`Arg::optional`] makes.
pub open spec fn optional_arg<V>(value: Option<V>, default: V) -> Arg<V> {
    match value {
        Some(v) => Arg::OptionalSet(v),
        None => Arg::OptionalDefault(default),
    }
}

/// Length of the longest run of open slots at the end of `args`.
pub open spec fn trailing_defaults<V>(args: Seq<Arg<V>>) -> nat
    decreases args.len(),
{
    if args.len() > 0 && args.last().is_default() {
        1 + trailing_defaults(args.drop_last())
    } else {
        0
    }
}

/// Number of slots that are sent.
pub open spec fn kept<V>(args: Seq<Arg<V>>) -> nat {
    (args.len() - trailing_defaults(args)) as nat
}

/// The argument list that goes over the wire for `args`.
pub open spec fn outbound<V>(args: Seq<Arg<V>>) -> Seq<V> {
    Seq::new(kept(args), |i: int| args[i].value())
}

/// The run counted by `trailing_defaults` fits in the list.
pub proof fn lemma_trailing_defaults_bounded<V>(args: Seq<Arg<V>>)
    ensures
        trailing_defaults(args) <= args.len(),
    decreases args.len(),
{
    if args.len() > 0 && args.last().is_default() {
        lemma_trailing_defaults_bounded(args.drop_last());
    }
}

/// A list that ends in a slot the caller filled loses nothing.
pub proof fn lemma_kept_all<V>(args: Seq<Arg<V>>)
    requires
        args.len() == 0 || !args.last().is_default(),
    ensures
        kept(args) == args.len(),
{
}

/// Dropping one open slot from the end does not change what is kept.
pub proof fn lemma_kept_drop_last<V>(args: Seq<Arg<V>>)
    requires
        args.len() > 0,
        args.last().is_default(),
    ensures
        kept(args) == kept(args.drop_last()),
{
    lemma_trailing_defaults_bounded(args.drop_last());
}

/// Every slot behind the kept ones is open, and the last kept one is not:
/// what is dropped is the whole run of open slots at the end, and no more.
pub proof fn lemma_kept_is_maximal<V>(args: Seq<Arg<V>>)
    ensures
        kept(args) <= args.len(),
        forall|i: int| kept(args) <= i < args.len() ==> (#[trigger] args[i]).is_default(),
        kept(args) > 0 ==> !args[kept(args) - 1].is_default(),
    decreases args.len(),
{
    lemma_trailing_defaults_bounded(args);
    if args.len() > 0 && args.last().is_default() {
        let head = args.drop_last();
        lemma_kept_is_maximal(head);
        lemma_kept_drop_last(args);
        assert forall|i: int| kept(args) <= i < args.len() implies (#[trigger] args[i]).is_default() by {
            if i < head.len() {
                assert(args[i] == head[i]);
            }
        }
        if kept(args) > 0 {
            assert(args[kept(args) - 1] == head[kept(head) - 1]);
        }
    }
}

/// The argument list that is sent is as long as the list of slots less the
/// run of open slots at its end, and holds, slot for slot, the bare values
/// of the slots before that run.
pub proof fn law_outbound_length<V>(args: Seq<Arg<V>>)
    ensures
        outbound(args).len() == args.len() - trailing_defaults(args),
        forall|i: int| 0 <= i < outbound(args).len() ==> outbound(args)[i] == (#[trigger] args[i]).value(),
        forall|i: int| outbound(args).len() <= i < args.len() ==> (#[trigger] args[i]).is_default(),
        outbound(args).len() > 0 ==> !args[outbound(args).len() - 1].is_default(),
{
    lemma_trailing_defaults_bounded(args);
    lemma_kept_is_maximal(args);
}

/// An open slot with a filled slot anywhere behind it is sent, with the
/// value that stands in for it, at the position it had among the slots.
pub proof fn law_default_before_filled_is_kept<V>(args: Seq<Arg<V>>, i: int, j: int)
    requires
        0 <= i < j < args.len(),
        args[i].is_default(),
        !args[j].is_default(),
    ensures
        i < outbound(args).len(),
        outbound(args)[i] == args[i].value(),
{
    lemma_kept_is_maximal(args);
}

impl<V: View> View for Arg<V> {
    type V = Arg<V::V>;

    /// The slot of the same kind, with the view of the value.
    open spec fn view(&self) -> Arg<V::V> {
        match self {
            Arg::Required(v) => Arg::Required(v@),
            Arg::OptionalSet(v) => Arg::OptionalSet(v@),
            Arg::OptionalDefault(v) => Arg::OptionalDefault(v@),
        }
    }
}

/// The views of `args`, slot by slot.
pub open spec fn views<V: View>(args: Seq<Arg<V>>) -> Seq<Arg<V::V>> {
    Seq::new(args.len(), |i: int| args[i]@)
}

/// What is dropped depends on the kinds of the slots alone: the views of what
/// is sent for `args` are what is sent for the views of `args`.
pub proof fn lemma_outbound_views<V: View>(args: Seq<Arg<V>>)
    ensures
        trailing_defaults(views(args)) == trailing_defaults(args),
        outbound(views(args)) == Seq::new(outbound(args).len(), |i: int| outbound(args)[i]@),
    decreases args.len(),
{
    lemma_trailing_defaults_bounded(args);
    if args.len() > 0 {
        assert(views(args).drop_last() == views(args.drop_last()));
        lemma_outbound_views(args.drop_last());
    }
    assert(outbound(views(args)) =~= Seq::new(outbound(args).len(), |i: int| outbound(args)[i]@));
}

/// The call builder: drops the open slots at the end of `args` and unwraps
/// the rest, in order.
pub fn build_args<V>(args: Vec<Arg<V>>) -> (out: Vec<V>)
    ensures
        out@ == outbound(args@),
        out@.len() == args@.len() - trailing_defaults(args@),
{
    let ghost given = args@;
    let mut args = args;
    let mut n: usize = args.len();
    assert(given.take(n as int) == given);
    while n > 0 && args[n - 1].left_open()
        invariant
            args@ == given,
            n <= given.len(),
            kept(given.take(n as int)) == kept(given),
        decreases n,
    {
        proof {
            let head = given.take(n as int);
            assert(head.last() == given[n - 1]);
            assert(head.drop_last() == given.take(n - 1));
            lemma_kept_drop_last(head);
        }
        n = n - 1;
    }
    proof {
        lemma_kept_all(given.take(n as int));
    }
    proof {
        lemma_trailing_defaults_bounded(given);
    }
    args.truncate(n);
    let mut out: Vec<V> = Vec::with_capacity(n);
    for arg in it: args
        invariant
            it.seq() == given.take(n as int),
            n == kept(given),
            n <= given.len(),
            out@ == Seq::new(it.index() as nat, |i: int| given[i].value()),
    {
        assert(arg == given[it.index() as int]);
        out.push(arg.into_value());
        assert(out@ == Seq::new((it.index() + 1) as nat, |i: int| given[i].value()));
    }
    out
}

} // verus!
