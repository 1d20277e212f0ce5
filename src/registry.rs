use vstd::prelude::*;

verus! {

/// The codes in `codes` that are mapped to the label `l`.
pub open spec fn codes_labelled(codes: Map<u32, Seq<char>>, l: Seq<char>) -> Set<u32> {
    codes.dom().filter(|c: u32| codes[c] == l)
}

/// Mathematical state of the active-key registry.
///
/// `codes` maps each physical key that is down to its display label,
/// `counts` maps each shown label to the number of held keys that carry it,
/// and `order` lists the shown labels in order of first press.
pub ghost struct KeyRegistry {
    pub codes: Map<u32, Seq<char>>,
    pub counts: Map<Seq<char>, nat>,
    pub order: Seq<Seq<char>>,
}

impl KeyRegistry {
    /// The registry with no key held.
    pub open spec fn empty() -> KeyRegistry {
        KeyRegistry { codes: Map::empty(), counts: Map::empty(), order: Seq::empty() }
    }

    /// Every count equals the number of held codes with that label, no count is
    /// zero, and every held code's label has a count.
    pub open spec fn ref_counts_exact(self) -> bool {
        &&& forall|l: Seq<char>| #[trigger]
            self.counts.contains_key(l) ==> self.counts[l] == codes_labelled(self.codes, l).len()
                && self.counts[l] > 0
        &&& forall|c: u32| #[trigger]
            self.codes.contains_key(c) ==> self.counts.contains_key(self.codes[c])
    }

    /// The display order holds each counted label exactly once, and nothing else.
    pub open spec fn order_matches_counts(self) -> bool {
        &&& self.order.no_duplicates()
        &&& forall|l: Seq<char>| #[trigger] self.order.contains(l) <==> self.counts.contains_key(l)
    }

    pub open spec fn inv(self) -> bool {
        &&& self.codes.dom().finite()
        &&& self.ref_counts_exact()
        &&& self.order_matches_counts()
    }

    /// The count of `l`, zero when `l` is not shown.
    pub open spec fn count_of(self, l: Seq<char>) -> nat {
        if self.counts.contains_key(l) {
            self.counts[l]
        } else {
            0
        }
    }

    /// A press of physical key `code` carrying display label `label`.
    pub open spec fn press(self, code: u32, label: Seq<char>) -> KeyRegistry {
        if self.codes.contains_key(code) {
            self
        } else {
            let n = self.count_of(label);
            KeyRegistry {
                codes: self.codes.insert(code, label),
                counts: self.counts.insert(label, n + 1),
                order: if n == 0 {
                    self.order.push(label)
                } else {
                    self.order
                },
            }
        }
    }

    /// A release of physical key `code`.
    pub open spec fn release(self, code: u32) -> KeyRegistry {
        if !self.codes.contains_key(code) {
            self
        } else {
            let l = self.codes[code];
            let n = self.count_of(l);
            if n <= 1 {
                KeyRegistry {
                    codes: self.codes.remove(code),
                    counts: self.counts.remove(l),
                    order: self.order.remove_value(l),
                }
            } else {
                KeyRegistry {
                    codes: self.codes.remove(code),
                    counts: self.counts.insert(l, (n - 1) as nat),
                    order: self.order,
                }
            }
        }
    }
}

proof fn lemma_labelled_finite(codes: Map<u32, Seq<char>>, l: Seq<char>)
    requires
        codes.dom().finite(),
    ensures
        codes_labelled(codes, l).finite(),
        codes_labelled(codes, l).len() <= codes.dom().len(),
{
    codes.dom().lemma_len_filter(|c: u32| codes[c] == l);
    vstd::set_lib::lemma_len_subset(codes_labelled(codes, l), codes.dom());
}

proof fn lemma_labelled_insert(codes: Map<u32, Seq<char>>, code: u32, l: Seq<char>, x: Seq<char>)
    requires
        codes.dom().finite(),
        !codes.contains_key(code),
    ensures
        x == l ==> codes_labelled(codes.insert(code, l), x) == codes_labelled(codes, x).insert(
            code,
        ),
        x == l ==> codes_labelled(codes.insert(code, l), x).len() == codes_labelled(
            codes,
            x,
        ).len() + 1,
        x != l ==> codes_labelled(codes.insert(code, l), x) == codes_labelled(codes, x),
{
    lemma_labelled_finite(codes, x);
    if x == l {
        assert(codes_labelled(codes.insert(code, l), x) =~= codes_labelled(codes, x).insert(code));
    } else {
        assert(codes_labelled(codes.insert(code, l), x) =~= codes_labelled(codes, x));
    }
}

proof fn lemma_labelled_remove(codes: Map<u32, Seq<char>>, code: u32, x: Seq<char>)
    requires
        codes.dom().finite(),
        codes.contains_key(code),
    ensures
        x == codes[code] ==> codes_labelled(codes.remove(code), x) == codes_labelled(
            codes,
            x,
        ).remove(code),
        x == codes[code] ==> codes_labelled(codes.remove(code), x).len() + 1 == codes_labelled(
            codes,
            x,
        ).len(),
        x != codes[code] ==> codes_labelled(codes.remove(code), x) == codes_labelled(codes, x),
{
    lemma_labelled_finite(codes, x);
    if x == codes[code] {
        assert(codes_labelled(codes.remove(code), x) =~= codes_labelled(codes, x).remove(code));
    } else {
        assert(codes_labelled(codes.remove(code), x) =~= codes_labelled(codes, x));
    }
}

/// No set of 32-bit codes has more than 2^32 members.
pub(crate) proof fn lemma_code_set_bound(s: Set<u32>)
    ensures
        s.len() <= 0x1_0000_0000,
{
    let all = Set::<u32>::range(0, 0xffff_ffff).insert(0xffff_ffff);
    vstd::set_lib::range_set_properties::<u32>(0, 0xffff_ffff);
    assert(s.subset_of(all));
    vstd::set_lib::lemma_len_subset(s, all);
}

/// The empty registry is consistent.
pub proof fn lemma_empty_inv()
    ensures
        KeyRegistry::empty().inv(),
{
    let e = KeyRegistry::empty();
    assert forall|l: Seq<char>| #[trigger] e.order.contains(l) <==> e.counts.contains_key(l) by {
    }
}

/// A press keeps every count equal to the number of held codes with its label,
/// and keeps the display order duplicate-free and in step with the counts.
pub proof fn lemma_press_inv(r: KeyRegistry, code: u32, label: Seq<char>)
    requires
        r.inv(),
    ensures
        r.press(code, label).inv(),
{
    if !r.codes.contains_key(code) {
        let p = r.press(code, label);
        let n = r.count_of(label);
        assert forall|l: Seq<char>| #[trigger] p.counts.contains_key(l) implies p.counts[l]
            == codes_labelled(p.codes, l).len() && p.counts[l] > 0 by {
            lemma_labelled_insert(r.codes, code, label, l);
            if l == label && !r.counts.contains_key(l) {
                lemma_labelled_finite(r.codes, l);
                if codes_labelled(r.codes, l).len() != 0 {
                    let c = codes_labelled(r.codes, l).choose();
                    assert(codes_labelled(r.codes, l).contains(c));
                    assert(r.codes.contains_key(c));
                }
            }
        }
        assert forall|c: u32| #[trigger] p.codes.contains_key(c) implies p.counts.contains_key(
            p.codes[c],
        ) by {
            if c != code {
                assert(r.codes.contains_key(c));
            }
        }
        assert forall|l: Seq<char>| #[trigger] p.order.contains(l) <==> p.counts.contains_key(l) by {
            if n == 0 {
                assert(r.order.contains(l) ==> p.order.contains(l)) by {
                    if r.order.contains(l) {
                        let i = choose|i: int| 0 <= i < r.order.len() && r.order[i] == l;
                        assert(p.order[i] == l);
                    }
                }
                assert(p.order[r.order.len() as int] == label);
            }
        }
        if n == 0 {
            assert(!r.order.contains(label));
        }
    }
}

/// A release keeps every count equal to the number of held codes with its
/// label, and keeps the display order duplicate-free and in step with the counts.
pub proof fn lemma_release_inv(r: KeyRegistry, code: u32)
    requires
        r.inv(),
    ensures
        r.release(code).inv(),
{
    if r.codes.contains_key(code) {
        let p = r.release(code);
        let label = r.codes[code];
        let n = r.count_of(label);
        assert(r.counts.contains_key(label));
        lemma_labelled_remove(r.codes, code, label);
        assert forall|l: Seq<char>| #[trigger] p.counts.contains_key(l) implies p.counts[l]
            == codes_labelled(p.codes, l).len() && p.counts[l] > 0 by {
            lemma_labelled_remove(r.codes, code, l);
        }
        assert forall|c: u32| #[trigger] p.codes.contains_key(c) implies p.counts.contains_key(
            p.codes[c],
        ) by {
            assert(r.codes.contains_key(c));
            if r.codes[c] == label && n <= 1 {
                lemma_labelled_finite(r.codes, label);
                assert(codes_labelled(r.codes, label).contains(c));
                assert(codes_labelled(r.codes, label).contains(code));
                assert(codes_labelled(r.codes, label).remove(code).contains(c));
            }
        }
        if n <= 1 {
            lemma_remove_value_no_dup(r.order, label);
        }
    }
}

/// Removing a value that occurs once from a duplicate-free sequence leaves
/// exactly the other values, still without duplicates.
proof fn lemma_remove_value_no_dup(s: Seq<Seq<char>>, v: Seq<char>)
    requires
        s.no_duplicates(),
        s.contains(v),
    ensures
        s.remove_value(v).no_duplicates(),
        forall|x: Seq<char>| #[trigger] s.remove_value(v).contains(x) <==> (s.contains(x) && x != v),
{
    s.index_of_first_ensures(v);
    let i = s.index_of_first(v)->0;
    let t = s.remove(i);
    assert(s.remove_value(v) == t);
    assert forall|x: Seq<char>| #[trigger] t.contains(x) <==> (s.contains(x) && x != v) by {
        if t.contains(x) {
            let j = choose|j: int| 0 <= j < t.len() && t[j] == x;
            if j < i {
                assert(s[j] == x);
                assert(j != i);
            } else {
                assert(s[j + 1] == x);
                assert(j + 1 != i);
            }
        }
        if s.contains(x) && x != v {
            let j = choose|j: int| 0 <= j < s.len() && s[j] == x;
            assert(j != i);
            if j < i {
                assert(t[j] == x);
            } else {
                assert(t[j - 1] == x);
            }
        }
    }
}

/// One operation on the registry.
pub ghost enum KeyOp {
    Press(u32, Seq<char>),
    Release(u32),
    Clear,
}

impl KeyRegistry {
    pub open spec fn apply(self, op: KeyOp) -> KeyRegistry {
        match op {
            KeyOp::Press(code, label) => self.press(code, label),
            KeyOp::Release(code) => self.release(code),
            KeyOp::Clear => KeyRegistry::empty(),
        }
    }

    /// The registry after `ops`, in order.
    pub open spec fn apply_all(self, ops: Seq<KeyOp>) -> KeyRegistry
        decreases ops.len(),
    {
        if ops.len() == 0 {
            self
        } else {
            self.apply_all(ops.drop_last()).apply(ops.last())
        }
    }
}

/// Whatever presses, releases and clears are applied, starting empty: every
/// count equals the number of held codes with its label and no label is
/// counted at zero, and the display order holds each counted label exactly
/// once and nothing else.
pub proof fn lemma_any_sequence_consistent(ops: Seq<KeyOp>)
    ensures
        KeyRegistry::empty().apply_all(ops).inv(),
        KeyRegistry::empty().apply_all(ops).ref_counts_exact(),
        KeyRegistry::empty().apply_all(ops).order_matches_counts(),
    decreases ops.len(),
{
    lemma_empty_inv();
    if ops.len() > 0 {
        lemma_any_sequence_consistent(ops.drop_last());
        let r = KeyRegistry::empty().apply_all(ops.drop_last());
        match ops.last() {
            KeyOp::Press(code, label) => lemma_press_inv(r, code, label),
            KeyOp::Release(code) => lemma_release_inv(r, code),
            KeyOp::Clear => {},
        }
    }
}

/// A clear after any operations leaves nothing shown and both maps empty.
pub proof fn lemma_clear_after_any_sequence(r: KeyRegistry, ops: Seq<KeyOp>)
    ensures
        r.apply_all(ops.push(KeyOp::Clear)).order.len() == 0,
        r.apply_all(ops.push(KeyOp::Clear)).codes.dom().is_empty(),
        r.apply_all(ops.push(KeyOp::Clear)).counts.dom().is_empty(),
{
    assert(ops.push(KeyOp::Clear).drop_last() == ops);
}

/// In a duplicate-free order, removing the label at position `i` takes out
/// exactly that position.
pub proof fn lemma_remove_label_at(s: Seq<Seq<char>>, i: int)
    requires
        s.no_duplicates(),
        0 <= i < s.len(),
    ensures
        s.remove_value(s[i]) == s.remove(i),
{
    s.index_of_first_ensures(s[i]);
}

/// Pressing the same key twice has the effect of pressing it once.
pub proof fn lemma_press_idempotent(r: KeyRegistry, code: u32, label: Seq<char>)
    ensures
        r.press(code, label).press(code, label) == r.press(code, label),
{
}

/// Once a key is pressed, its release takes it out of the registry. The
/// capture steps apply releases whatever their filter says, so a key pressed
/// before the filter changed does not stay shown.
pub proof fn lemma_release_removes_pressed(r: KeyRegistry, code: u32, label: Seq<char>)
    ensures
        !r.press(code, label).release(code).codes.contains_key(code),
        r.press(code, label).codes.contains_key(code),
{
}

} // verus!
