//! Class-name composition. Every component's class attribute is the same
//! shape: the component's fixed base class, then the caller-supplied
//! extension classes verbatim, then one derived modifier class per selected
//! option, in the component's fixed order.
//!
//! A class list is a plain ordered sequence: nothing deduplicates it. Keeping
//! the extension classes free of a component's base class and of the
//! framework's modifier literals is the caller's convention; the exact-count
//! lemmas below and in the component modules take that convention as their
//! hypothesis.

use vstd::prelude::*;

verus! {

/// The views of a list of class names.
pub open spec fn class_views(classes: Seq<String>) -> Seq<Seq<char>> {
    classes.map_values(|s: String| s@)
}

/// The views of an optional caller-supplied extension list; an absent
/// extension contributes nothing.
pub open spec fn ext_views(classes: Option<Vec<String>>) -> Seq<Seq<char>> {
    match classes {
        Option::Some(cs) => class_views(cs@),
        Option::None => Seq::empty(),
    }
}

/// One modifier class when the flag is set, nothing when it is not.
pub open spec fn flag_class(on: bool, class: Seq<char>) -> Seq<Seq<char>> {
    if on {
        seq![class]
    } else {
        Seq::empty()
    }
}

/// An enumerated style option that maps to exactly one fixed class string.
pub trait ModifierClass: Sized {
    /// The modifier class this selection derives.
    spec fn class(&self) -> Seq<char>;

    /// The modifier class as an owned string.
    fn class_text(&self) -> (r: String)
        ensures
            r@ == self.class(),
    ;
}

/// The modifier classes of an optional enumerated selection: one class when
/// set, nothing when unset.
pub open spec fn opt_mod<M: ModifierClass>(m: Option<M>) -> Seq<Seq<char>> {
    match m {
        Option::Some(x) => seq![x.class()],
        Option::None => Seq::empty(),
    }
}

/// The composed class list: base class, extension classes, modifier classes,
/// in that fixed order.
pub open spec fn composed(base: Seq<char>, ext: Seq<Seq<char>>, mods: Seq<Seq<char>>) -> Seq<
    Seq<char>,
> {
    seq![base] + ext + mods
}

/// How many entries of `classes` equal `c`.
pub open spec fn count_class(classes: Seq<Seq<char>>, c: Seq<char>) -> int
    decreases classes.len(),
{
    if classes.len() == 0 {
        0
    } else {
        count_class(classes.drop_last(), c) + if classes.last() == c {
            1int
        } else {
            0int
        }
    }
}

/// Counting distributes over concatenation.
pub proof fn lemma_count_concat(a: Seq<Seq<char>>, b: Seq<Seq<char>>, c: Seq<char>)
    ensures
        count_class(a + b, c) == count_class(a, c) + count_class(b, c),
    decreases b.len(),
{
    if b.len() == 0 {
        assert(a + b =~= a);
    } else {
        lemma_count_concat(a, b.drop_last(), c);
        assert((a + b).drop_last() =~= a + b.drop_last());
        assert((a + b).last() == b.last());
    }
}

/// A class that never occurs in a list is counted zero times, and one that
/// occurs is counted at least once.
pub proof fn lemma_count_occurrence(classes: Seq<Seq<char>>, c: Seq<char>)
    ensures
        !classes.contains(c) ==> count_class(classes, c) == 0,
        classes.contains(c) ==> count_class(classes, c) >= 1,
    decreases classes.len(),
{
    if classes.len() > 0 {
        lemma_count_occurrence(classes.drop_last(), c);
        if classes.contains(c) && classes.last() != c {
            let i = choose|i: int| 0 <= i < classes.len() && classes[i] == c;
            assert(classes.drop_last()[i] == c);
        }
        if classes.drop_last().contains(c) {
            let i = choose|i: int| 0 <= i < classes.drop_last().len()
                && classes.drop_last()[i] == c;
            assert(classes[i] == c);
        }
    }
}

/// A set flag contributes its class exactly once, an unset flag not at all.
pub proof fn lemma_flag_class_count(on: bool, class: Seq<char>, c: Seq<char>)
    ensures
        count_class(flag_class(on, class), c) == if on && class == c {
            1int
        } else {
            0int
        },
{
    if on {
        let s = flag_class(on, class);
        assert(s.len() == 1 && s.last() == class);
        assert(s.drop_last() =~= Seq::<Seq<char>>::empty());
        assert(count_class(Seq::<Seq<char>>::empty(), c) == 0);
    }
}

/// A selected option contributes its class exactly once, an unset option not
/// at all.
pub proof fn lemma_opt_mod_count<M: ModifierClass>(m: Option<M>, c: Seq<char>)
    ensures
        count_class(opt_mod(m), c) == if m matches Option::Some(x) && x.class() == c {
            1int
        } else {
            0int
        },
{
    if let Option::Some(x) = m {
        lemma_flag_class_count(true, x.class(), c);
        assert(opt_mod(m) =~= flag_class(true, x.class()));
    }
}

/// The composed class list holds the base class exactly once whenever neither
/// the extension classes nor the derived modifier classes repeat it.
pub proof fn lemma_composed_base_once(base: Seq<char>, ext: Seq<Seq<char>>, mods: Seq<Seq<char>>)
    requires
        !ext.contains(base),
        !mods.contains(base),
    ensures
        count_class(composed(base, ext, mods), base) == 1,
{
    lemma_count_concat(seq![base] + ext, mods, base);
    lemma_count_concat(seq![base], ext, base);
    lemma_count_occurrence(ext, base);
    lemma_count_occurrence(mods, base);
    lemma_flag_class_count(true, base, base);
    assert(seq![base] =~= flag_class(true, base));
}

/// The extension classes stand verbatim in the composed class list, directly
/// after the base class.
pub proof fn lemma_composed_extension_verbatim(
    base: Seq<char>,
    ext: Seq<Seq<char>>,
    mods: Seq<Seq<char>>,
)
    ensures
        composed(base, ext, mods).subrange(1, 1 + ext.len() as int) == ext,
{
    assert(composed(base, ext, mods).subrange(1, 1 + ext.len() as int) =~= ext);
}

/// Start a class list with the component's base class.
pub fn base_class(base: &str) -> (r: Vec<String>)
    ensures
        class_views(r@) == seq![base@],
{
    let mut v: Vec<String> = Vec::new();
    v.push(base.to_owned());
    proof {
        assert(class_views(v@) =~= seq![base@]);
    }
    v
}

/// Append the caller-supplied extension classes, verbatim and in order.
#[verifier::loop_isolation(false)]
pub fn push_extension(list: &mut Vec<String>, ext: &Option<Vec<String>>)
    ensures
        class_views(final(list)@) == class_views(old(list)@) + ext_views(*ext),
{
    match ext {
        Option::Some(cs) => {
            let ghost start = list@;
            let mut i: usize = 0;
            while i < cs.len()
                invariant
                    i <= cs.len(),
                    list@.len() == start.len() + i as int,
                    list@.subrange(0, start.len() as int) == start,
                    forall|j: int| 0 <= j < i as int ==> list@[start.len() + j]@ == cs@[j]@,
                decreases cs.len() - i,
            {
                let ghost prev = list@;
                list.push(cs[i].clone());
                proof {
                    assert(list@.subrange(0, start.len() as int) =~= prev.subrange(
                        0,
                        start.len() as int,
                    ));
                }
                i = i + 1;
            }
            proof {
                assert(class_views(list@) =~= class_views(start) + ext_views(*ext));
            }
        },
        Option::None => {
            proof {
                assert(class_views(list@) =~= class_views(list@) + ext_views(*ext));
            }
        },
    }
}

/// Append one derived modifier class.
pub fn push_class(list: &mut Vec<String>, class: &str)
    ensures
        class_views(final(list)@) == class_views(old(list)@).push(class@),
{
    list.push(class.to_owned());
    proof {
        assert(class_views(list@) =~= class_views(old(list)@).push(class@));
    }
}

/// Append the modifier class of an enumerated selection, if one is set.
pub fn push_opt_mod<M: ModifierClass>(list: &mut Vec<String>, m: &Option<M>)
    ensures
        class_views(final(list)@) == class_views(old(list)@) + opt_mod::<M>(*m),
{
    match m {
        Option::Some(x) => {
            list.push(x.class_text());
            proof {
                assert(class_views(list@) =~= class_views(old(list)@) + opt_mod::<M>(*m));
            }
        },
        Option::None => {
            proof {
                assert(class_views(list@) =~= class_views(list@) + opt_mod::<M>(*m));
            }
        },
    }
}

/// Whether the list holds the given class.
#[verifier::loop_isolation(false)]
pub fn contains_class(list: &Vec<String>, class: &str) -> (r: bool)
    ensures
        r == class_views(list@).contains(class@),
{
    let needle = class.to_owned();
    let mut i: usize = 0;
    while i < list.len()
        invariant
            i <= list.len(),
            forall|j: int| 0 <= j < i as int ==> list@[j]@ != class@,
        decreases list.len() - i,
    {
        if list[i] == needle {
            proof {
                assert(class_views(list@)[i as int] == class@);
            }
            return true;
        }
        i = i + 1;
    }
    proof {
        if class_views(list@).contains(class@) {
            let j = choose|j: int|
                0 <= j < class_views(list@).len() && class_views(list@)[j] == class@;
            assert(list@[j]@ == class@);
        }
    }
    false
}

} // verus!
