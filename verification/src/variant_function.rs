use vstd::prelude::*;

verus! {

use crate::variant::Variant;
use vstd::std_specs::convert::IntoSpec;

/// An ordered call frame: a name (by convention a `Str` variant — any
/// variant is structurally accepted) and the positional arguments, in
/// insertion order. The frame exclusively owns its name and arguments.
///
/// The fields are public so that contracts can speak of them; the methods
/// here only ever append arguments, never remove or reorder them, and the
/// contracts of the `push_arg` family say so. A caller writing the fields
/// directly steps outside that discipline.
#[derive(Debug)]
pub struct VariantFunction {
    pub name: Variant,
    pub args: Vec<Variant>,
}

/// The wire bytes of the argument slots: each argument's encoding behind
/// one index byte. The index byte of the first argument is 0 — the same
/// index the name carries — and later arguments count 1, 2, … upward
/// (wrapping past 255). The repeated index 0 is how the consumer of this
/// format expects the frame, and is kept exactly.
pub open spec fn args_encoding(args: Seq<Variant>) -> Seq<u8>
    decreases args.len(),
{
    if args.len() == 0 {
        Seq::empty()
    } else {
        args_encoding(args.drop_last()) + seq![((args.len() - 1) as u8)]
            + args.last().encoding()
    }
}

/// The wire cost of the argument slots: one index byte plus the encoding
/// length, summed over the arguments.
pub open spec fn args_size(args: Seq<Variant>) -> nat
    decreases args.len(),
{
    if args.len() == 0 {
        0
    } else {
        args_size(args.drop_last()) + 1 + args.last().encoding().len()
    }
}

/// The argument slots pack to exactly their wire cost.
pub proof fn lemma_args_encoding_size(args: Seq<Variant>)
    ensures
        args_encoding(args).len() == args_size(args),
    decreases args.len(),
{
    if args.len() > 0 {
        lemma_args_encoding_size(args.drop_last());
    }
}

impl VariantFunction {
    /// The number of indexed slots in the frame: the name plus one per
    /// argument.
    pub open spec fn spec_indices(&self) -> nat {
        self.args@.len() + 1
    }

    /// The complete frame: the slot count byte (the count is written
    /// truncated to eight bits; more than 254 arguments are out of scope
    /// for the format), the name behind index byte 0, then the argument
    /// slots.
    pub open spec fn frame_bytes(&self) -> Seq<u8> {
        seq![(self.spec_indices() as u8), 0u8] + self.name.encoding() + args_encoding(self.args@)
    }

    /// Wraps `name` as a `Str` variant over an empty argument list.
    pub fn new(name: &str) -> (r: VariantFunction)
        ensures
            r.name matches Variant::Str(s) && s@ == name@,
            r.args@ == Seq::<Variant>::empty(),
    {
        VariantFunction { name: Variant::from(name), args: Vec::new() }
    }

    /// The count of indexed slots: the argument count plus one for the
    /// name.
    pub fn indices(&self) -> (r: usize)
        requires
            self.args@.len() < usize::MAX,
        ensures
            r == self.spec_indices(),
    {
        self.args.len() + 1
    }

    /// Appends a value convertible to `Variant`, returning the frame for
    /// chaining. The appended element is whatever the conversion yields:
    /// its postcondition is forwarded, and for conversions with a
    /// spec-level value the element is that value exactly.
    pub fn push_arg<V: Into<Variant>>(self, v: V) -> (r: VariantFunction)
        ensures
            r.name == self.name,
            r.args@.len() == self.args@.len() + 1,
            r.args@.drop_last() == self.args@,
            call_ensures(V::into, (v,), r.args@.last()),
            V::obeys_into_spec() ==> r.args@.last() == v.into_spec(),
    {
        let ghost orig = self;
        let mut r = self;
        r.args.push(v.into());
        proof {
            assert(r.args@.drop_last() =~= orig.args@);
        }
        r
    }

    /// Appends a value convertible to `Variant`, mutating in place. The
    /// observable effect on the frame is the same as the chaining form's.
    pub fn push_arg_borrow<V: Into<Variant>>(&mut self, v: V)
        ensures
            final(self).name == old(self).name,
            final(self).args@.len() == old(self).args@.len() + 1,
            final(self).args@.drop_last() == old(self).args@,
            call_ensures(V::into, (v,), final(self).args@.last()),
            V::obeys_into_spec() ==> final(self).args@.last() == v.into_spec(),
    {
        self.args.push(v.into());
        proof {
            assert(self.args@.drop_last() =~= old(self).args@);
        }
    }

    /// Appends an already constructed variant, returning the frame for
    /// chaining. Useful to bypass the conversion table, e.g. for an
    /// explicit `Nil`.
    pub fn push_arg_v(self, v: Variant) -> (r: VariantFunction)
        ensures
            r.name == self.name,
            r.args@ == self.args@.push(v),
    {
        let mut r = self;
        r.args.push(v);
        r
    }

    /// Appends an already constructed variant, mutating in place.
    pub fn push_arg_v_borrow(&mut self, v: Variant)
        ensures
            final(self).name == old(self).name,
            final(self).args@ == old(self).args@.push(v),
    {
        self.args.push(v);
    }

    /// Writes the full call frame to `out`: the slot count byte, the name
    /// behind index byte 0, then each argument behind its index byte. The
    /// frame itself is never changed by packing, and an in-memory sink
    /// cannot fail.
    pub fn pack(&self, out: &mut Vec<u8>)
        requires
            self.args@.len() < usize::MAX,
        ensures
            final(out)@ == old(out)@ + self.frame_bytes(),
    {
        let count: usize = self.indices();
        out.push(#[verifier::truncate] (count as u8));
        out.push(0u8);
        self.name.pack(out);
        let mut i: usize = 0;
        while i < self.args.len()
            invariant
                i <= self.args@.len(),
                self.args@.len() < usize::MAX,
                out@ == old(out)@ + seq![((self.args@.len() + 1) as u8), 0u8]
                    + self.name.encoding() + args_encoding(self.args@.take(i as int)),
            decreases self.args@.len() - i,
        {
            out.push(#[verifier::truncate] (i as u8));
            self.args[i].pack(out);
            i = i + 1;
            proof {
                assert(self.args@.take(i as int).drop_last() =~= self.args@.take(i - 1));
                assert(self.args@.take(i as int).last() == self.args@[i - 1]);
            }
        }
        proof {
            assert(self.args@.take(self.args@.len() as int) =~= self.args@);
            assert(out@ =~= old(out)@ + self.frame_bytes());
        }
    }

    /// Packs the frame into a fresh in-memory buffer and returns the
    /// bytes.
    pub fn to_vec(&self) -> (r: Vec<u8>)
        requires
            self.args@.len() < usize::MAX,
        ensures
            r@ == self.frame_bytes(),
    {
        let mut out: Vec<u8> = Vec::new();
        self.pack(&mut out);
        out
    }
}

/// The total length of a packed frame: the slot count byte, then for the
/// name and for every argument one index byte plus that variant's
/// encoding.
pub proof fn lemma_frame_size(f: &VariantFunction)
    ensures
        f.frame_bytes().len() == 1 + (1 + f.name.encoding().len()) + args_size(f.args@),
{
    lemma_args_encoding_size(f.args@);
}

/// A frame with no arguments packs to a 1-slot frame whose only indexed
/// entry is the name at index 0.
pub proof fn lemma_empty_frame(f: &VariantFunction)
    requires
        f.args@.len() == 0,
    ensures
        f.frame_bytes() == seq![1u8, 0u8] + f.name.encoding(),
{
    assert(f.frame_bytes() =~= seq![1u8, 0u8] + f.name.encoding());
}

} // verus!
