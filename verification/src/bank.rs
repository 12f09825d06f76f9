//! Feature banks: ordered, immutable lists of named feature evaluators.
//!
//! An evaluator is a computation unit with a fixed ordered list of output
//! names, one per output slot. A bank may wrap an evaluator in a value
//! transformer — a monotonic rescaling of selected output slots — which
//! renames the outputs it touches. A transformer that does not fit the
//! arity of the evaluator it wraps is a construction-time configuration
//! error, never a per-request one.

use vstd::prelude::*;
use crate::error::PipelineError;

verus! {

/// The views of a list of names.
pub open spec fn views_of(names: Seq<String>) -> Seq<Seq<char>> {
    names.map(|i: int, s: String| s@)
}

/// A per-element value transform: applied slot by slot, it keeps the arity
/// and prefixes each output name.
#[derive(Clone, Copy, PartialEq, Eq, Structural, Debug)]
pub enum Transform {
    Identity,
    Arcsinh,
    Ln1p,
    Lg,
}

/// The name a transform gives to an output slot.
pub open spec fn spec_transform_name(t: Transform, name: Seq<char>) -> Seq<char> {
    match t {
        Transform::Identity => name,
        Transform::Arcsinh => "arcsinh_"@ + name,
        Transform::Ln1p => "ln1p_"@ + name,
        Transform::Lg => "lg_"@ + name,
    }
}

pub fn transform_name(t: Transform, name: &String) -> (r: String)
    ensures
        r@ == spec_transform_name(t, name@),
{
    match t {
        Transform::Identity => String::from_str(name.as_str()),
        Transform::Arcsinh => String::from_str("arcsinh_").concat(name.as_str()),
        Transform::Ln1p => String::from_str("ln1p_").concat(name.as_str()),
        Transform::Lg => String::from_str("lg_").concat(name.as_str()),
    }
}

/// A value transformer wrapping one evaluator. `Uniform` applies one
/// transform to every output slot. `Composed` applies member transforms
/// positionally, each to a stated number of consecutive slots; it fits only
/// an evaluator whose arity equals the sum of those counts. `BazinFit`
/// post-processes the six outputs of a Bazin-function fit into five named
/// quantities.
#[derive(Debug)]
pub enum Transformer {
    Uniform(Transform),
    Composed(Vec<(Transform, usize)>),
    BazinFit,
}

/// Sum of the slot counts of a composed transformer's members.
pub open spec fn spec_slots_sum(slots: Seq<(Transform, usize)>) -> int
    decreases slots.len(),
{
    if slots.len() == 0 {
        0
    } else {
        slots[0].1 + spec_slots_sum(slots.drop_first())
    }
}

pub proof fn lemma_slots_sum_nonneg(slots: Seq<(Transform, usize)>)
    ensures
        spec_slots_sum(slots) >= 0,
    decreases slots.len(),
{
    if slots.len() > 0 {
        lemma_slots_sum_nonneg(slots.drop_first());
    }
}

/// Whether a transformer fits an evaluator of the given arity.
pub open spec fn spec_transformer_accepts(tr: Transformer, arity: nat) -> bool {
    match tr {
        Transformer::Uniform(_) => true,
        Transformer::Composed(slots) => spec_slots_sum(slots@) == arity,
        Transformer::BazinFit => arity == 6,
    }
}

/// Names of one transform applied to every slot.
pub open spec fn spec_uniform_names(t: Transform, names: Seq<Seq<char>>) -> Seq<Seq<char>> {
    names.map(|i: int, n: Seq<char>| spec_transform_name(t, n))
}

/// Names of a composed transformer: each member renames its own run of
/// consecutive slots.
pub open spec fn spec_composed_names(
    slots: Seq<(Transform, usize)>,
    names: Seq<Seq<char>>,
) -> Seq<Seq<char>>
    decreases slots.len(),
{
    if slots.len() == 0 {
        Seq::empty()
    } else {
        spec_uniform_names(slots[0].0, names.take(slots[0].1 as int)) + spec_composed_names(
            slots.drop_first(),
            names.skip(slots[0].1 as int),
        )
    }
}

/// The five outputs of the Bazin-fit transformer.
pub open spec fn spec_bazin_names() -> Seq<Seq<char>> {
    seq![
        "bazin_fit_mag_full_amplitude"@,
        "bazin_fit_baseline_amplitude_ratio"@,
        "bazin_fit_rise_time"@,
        "bazin_fit_fall_time"@,
        "ln1p_bazin_fit_reduced_chi2"@,
    ]
}

/// Output names of a transformer over the wrapped evaluator's names.
pub open spec fn spec_transformed_names(tr: Transformer, names: Seq<Seq<char>>) -> Seq<Seq<char>> {
    match tr {
        Transformer::Uniform(t) => spec_uniform_names(t, names),
        Transformer::Composed(slots) => spec_composed_names(slots@, names),
        Transformer::BazinFit => spec_bazin_names(),
    }
}

/// One feature evaluator as the bank sees it: its ordered output names. The
/// arity is the number of names.
#[derive(Debug)]
pub struct Evaluator {
    pub names: Vec<String>,
}

impl Evaluator {
    pub open spec fn spec_names(self) -> Seq<Seq<char>> {
        views_of(self.names@)
    }

    pub open spec fn arity(self) -> nat {
        self.names@.len()
    }

    pub fn new(names: Vec<String>) -> (r: Evaluator)
        ensures
            r.names@ == names@,
    {
        Evaluator { names }
    }
}

/// Wrap an evaluator in a value transformer, validating at construction
/// that the transformer fits the evaluator's arity; a mismatch is a
/// configuration error. On success the evaluator's outputs carry the
/// transformer's names.
pub fn transform_evaluator(base: &Evaluator, tr: &Transformer) -> (r: Result<
    Evaluator,
    PipelineError,
>)
    ensures
        r is Ok <==> spec_transformer_accepts(*tr, base.arity()),
        r matches Err(e) ==> e is ConfigurationError,
        r matches Ok(ev) ==> ev.spec_names() == spec_transformed_names(*tr, base.spec_names()),
{
    let ghost all = base.spec_names();
    match tr {
        Transformer::Uniform(t) => {
            let n = base.names.len();
            let mut out: Vec<String> = Vec::new();
            assert(views_of(out@) =~= spec_uniform_names(*t, all.take(0)));
            for k in 0..n
                invariant
                    n == base.names@.len(),
                    all == base.spec_names(),
                    views_of(out@) == spec_uniform_names(*t, all.take(k as int)),
            {
                proof {
                    assert(spec_uniform_names(*t, all.take(k as int)).len() == all.take(
                        k as int,
                    ).len());
                    assert(all.take(k as int).len() == k as int);
                    assert(out@.len() == k as int);
                }
                let ghost prev = out@;
                let nm = transform_name(*t, &base.names[k]);
                out.push(nm);
                proof {
                    assert(out@ == prev.push(nm));
                    assert(all[k as int] == base.names@[k as int]@);
                    assert(nm@ == spec_transform_name(*t, all[k as int]));
                    assert(forall|i: int|
                        0 <= i < k ==> #[trigger] views_of(out@)[i] == views_of(prev)[i]);
                    assert(views_of(out@)[k as int] == nm@);
                    assert(all.take(k + 1 as int) =~= all.take(k as int).push(all[k as int]));
                    assert(views_of(out@) =~= spec_uniform_names(*t, all.take(k + 1 as int)));
                }
            }
            proof {
                assert(all.take(n as int) =~= all);
            }
            Ok(Evaluator { names: out })
        },
        Transformer::Composed(slots) => {
            let arity = base.names.len();
            let n_slots = slots.len();
            let mut pos: usize = 0;
            let mut out: Vec<String> = Vec::new();
            proof {
                assert(slots@.skip(0) =~= slots@);
                assert(all.skip(0) =~= all);
                assert(all.len() == arity);
                assert(views_of(out@) =~= Seq::<Seq<char>>::empty());
                assert(spec_composed_names(slots@, all) =~= views_of(out@) + spec_composed_names(
                    slots@.skip(0),
                    all.skip(0),
                ));
            }
            for si in 0..n_slots
                invariant
                    *tr is Composed,
                    (*tr)->Composed_0 == *slots,
                    n_slots == slots@.len(),
                    arity == base.names@.len(),
                    all == base.spec_names(),
                    0 <= pos <= arity,
                    pos + spec_slots_sum(slots@.skip(si as int)) == spec_slots_sum(slots@),
                    spec_composed_names(slots@, all) == views_of(out@) + spec_composed_names(
                        slots@.skip(si as int),
                        all.skip(pos as int),
                    ),
            {
                let c = slots[si].1;
                let t = slots[si].0;
                proof {
                    assert(slots@.skip(si as int)[0] == slots@[si as int]);
                    assert(slots@.skip(si as int).drop_first() =~= slots@.skip(si + 1 as int));
                }
                if c > arity - pos {
                    proof {
                        lemma_slots_sum_nonneg(slots@.skip(si + 1 as int));
                        assert(spec_slots_sum(slots@.skip(si as int)) == c + spec_slots_sum(
                            slots@.skip(si + 1 as int),
                        ));
                        assert(spec_slots_sum(slots@) > arity);
                        assert(*tr is Composed);
                        assert((*tr)->Composed_0 == *slots);
                        assert(!spec_transformer_accepts(*tr, base.arity()));
                    }
                    return Err(PipelineError::ConfigurationError);
                }
                let ghost out_before = views_of(out@);
                let end = pos + c;
                proof {
                    assert(all.len() == arity);
                    assert(all.skip(pos as int).take(c as int) =~= all.subrange(
                        pos as int,
                        end as int,
                    ));
                    assert(all.skip(pos as int).skip(c as int) =~= all.skip(end as int));
                    assert(all.subrange(pos as int, pos as int) =~= Seq::<Seq<char>>::empty());
                    assert(views_of(out@) =~= out_before + spec_uniform_names(
                        t,
                        all.subrange(pos as int, pos as int),
                    ));
                }
                let mut j = pos;
                while j < end
                    invariant
                        pos <= j <= end <= base.names@.len(),
                        all == base.spec_names(),
                        views_of(out@) == out_before + spec_uniform_names(
                            t,
                            all.subrange(pos as int, j as int),
                        ),
                    decreases end - j,
                {
                    proof {
                        assert(all.len() == base.names@.len());
                        assert(spec_uniform_names(t, all.subrange(pos as int, j as int)).len()
                            == all.subrange(pos as int, j as int).len());
                        assert(all.subrange(pos as int, j as int).len() == j - pos);
                        assert(views_of(out@).len() == out_before.len() + j - pos);
                        assert(out@.len() == out_before.len() + j - pos);
                    }
                    let ghost prev = out@;
                    let nm = transform_name(t, &base.names[j]);
                    out.push(nm);
                    proof {
                        assert(out@ == prev.push(nm));
                        assert(all[j as int] == base.names@[j as int]@);
                        assert(nm@ == spec_transform_name(t, all[j as int]));
                        assert(forall|i: int|
                            0 <= i < prev.len() ==> #[trigger] views_of(out@)[i] == views_of(
                                prev,
                            )[i]);
                        assert(views_of(out@)[prev.len() as int] == nm@);
                        assert(all.subrange(pos as int, j + 1 as int) =~= all.subrange(
                            pos as int,
                            j as int,
                        ).push(all[j as int]));
                        assert(views_of(out@) =~= out_before + spec_uniform_names(
                            t,
                            all.subrange(pos as int, j + 1 as int),
                        ));
                    }
                    j += 1;
                }
                proof {
                    let ghost uni = spec_uniform_names(t, all.subrange(pos as int, end as int));
                    let ghost rest = spec_composed_names(
                        slots@.skip(si + 1 as int),
                        all.skip(end as int),
                    );
                    assert(spec_composed_names(slots@.skip(si as int), all.skip(pos as int)) == uni
                        + rest);
                    assert((out_before + uni) + rest =~= out_before + (uni + rest));
                    assert(spec_composed_names(slots@, all) == views_of(out@) + rest);
                }
                pos = end;
            }
            proof {
                assert(slots@.skip(n_slots as int) =~= Seq::empty());
                assert(spec_slots_sum(slots@) == pos);
            }
            if pos != arity {
                return Err(PipelineError::ConfigurationError);
            }
            proof {
                assert(spec_composed_names(slots@, all) =~= views_of(out@));
            }
            Ok(Evaluator { names: out })
        },
        Transformer::BazinFit => {
            if base.names.len() != 6 {
                return Err(PipelineError::ConfigurationError);
            }
            let mut out: Vec<String> = Vec::new();
            out.push(String::from_str("bazin_fit_mag_full_amplitude"));
            out.push(String::from_str("bazin_fit_baseline_amplitude_ratio"));
            out.push(String::from_str("bazin_fit_rise_time"));
            out.push(String::from_str("bazin_fit_fall_time"));
            out.push(String::from_str("ln1p_bazin_fit_reduced_chi2"));
            proof {
                assert(views_of(out@) =~= spec_bazin_names());
            }
            Ok(Evaluator { names: out })
        },
    }
}

/// An ordered, immutable list of evaluators bound to one representation.
pub struct Bank {
    pub evaluators: Vec<Evaluator>,
}

/// All output names of a bank, in bank order.
pub open spec fn spec_bank_names(evaluators: Seq<Evaluator>) -> Seq<Seq<char>>
    decreases evaluators.len(),
{
    if evaluators.len() == 0 {
        Seq::empty()
    } else {
        spec_bank_names(evaluators.drop_last()) + evaluators.last().spec_names()
    }
}

impl Bank {
    pub open spec fn spec_names(self) -> Seq<Seq<char>> {
        spec_bank_names(self.evaluators@)
    }

    /// Width of the bank: how many scalars one evaluation of it yields.
    pub open spec fn spec_width(self) -> nat {
        self.spec_names().len()
    }

    pub fn new(evaluators: Vec<Evaluator>) -> (r: Bank)
        ensures
            r.evaluators@ == evaluators@,
    {
        Bank { evaluators }
    }

    /// The bank's ordered name list, the concatenation of its evaluators'
    /// names.
    pub fn names(&self) -> (r: Vec<String>)
        ensures
            views_of(r@) == self.spec_names(),
            r@.len() == self.spec_width(),
    {
        let mut out: Vec<String> = Vec::new();
        let n = self.evaluators.len();
        assert(views_of(out@) =~= spec_bank_names(self.evaluators@.take(0)));
        for k in 0..n
            invariant
                n == self.evaluators@.len(),
                views_of(out@) == spec_bank_names(self.evaluators@.take(k as int)),
        {
            let ghost outer_before = views_of(out@);
            let ev = &self.evaluators[k];
            let m = ev.names.len();
            let mut j: usize = 0;
            proof {
                assert(ev.spec_names().take(0) =~= Seq::empty());
                assert(views_of(out@) =~= outer_before + ev.spec_names().take(0));
            }
            while j < m
                invariant
                    0 <= j <= m,
                    k < n == self.evaluators@.len(),
                    m == ev.names@.len(),
                    *ev == self.evaluators@[k as int],
                    views_of(out@) == outer_before + ev.spec_names().take(j as int),
                decreases m - j,
            {
                proof {
                    assert(ev.spec_names().take(j as int).len() == j as int);
                    assert(views_of(out@).len() == outer_before.len() + j);
                    assert(out@.len() == outer_before.len() + j);
                    assert(ev.spec_names()[j as int] == ev.names@[j as int]@);
                }
                let ghost prev = out@;
                let nm = String::from_str(ev.names[j].as_str());
                out.push(nm);
                proof {
                    assert(out@ == prev.push(nm));
                    assert(nm@ == ev.names@[j as int]@);
                    assert(forall|i: int|
                        0 <= i < prev.len() ==> #[trigger] views_of(out@)[i] == views_of(prev)[i]);
                    assert(views_of(out@)[prev.len() as int] == nm@);
                    assert(ev.spec_names().take(j + 1 as int) =~= ev.spec_names().take(
                        j as int,
                    ).push(ev.spec_names()[j as int]));
                    assert(views_of(out@) =~= outer_before + ev.spec_names().take(j + 1 as int));
                }
                j += 1;
            }
            proof {
                assert(ev.spec_names().take(m as int) =~= ev.spec_names());
                assert(self.evaluators@.take(k + 1 as int).drop_last() =~= self.evaluators@.take(
                    k as int,
                ));
                assert(self.evaluators@.take(k + 1 as int).last() == self.evaluators@[k as int]);
                assert(views_of(out@) =~= spec_bank_names(self.evaluators@.take(k + 1 as int)));
            }
        }
        proof {
            assert(self.evaluators@.take(n as int) =~= self.evaluators@);
        }
        out
    }
}

} // verus!
