use std::collections::HashMap;
use vstd::prelude::*;

use crate::config::TargetConfig;
use crate::notify::publish;
use crate::registry::{
    codes_labelled, lemma_code_set_bound, lemma_empty_inv, lemma_press_inv, lemma_release_inv,
    lemma_remove_label_at, KeyRegistry,
};

verus! {

/// The views of a list of strings.
pub open spec fn labels_of(v: Seq<String>) -> Seq<Seq<char>> {
    v.map_values(|s: String| s@)
}

/// Relies on std::time::SystemTime::now, read as whole milliseconds since
/// the Unix epoch (zero for a clock set before it). Nothing is promised of
/// the value.
#[verifier::external_body]
fn unix_millis_now() -> u64 {
    match std::time::SystemTime::now().duration_since(std::time::UNIX_EPOCH) {
        Ok(d) => d.as_millis() as u64,
        Err(_) => 0,
    }
}

/// The active-key registry.
///
/// It maps each held physical key code to its display label, counts the held
/// keys behind each label, and keeps the labels in order of first press.
/// `label_counts[i]` is the count of `label_order[i]`.
pub struct ActiveKeys {
    key_labels: HashMap<u32, String>,
    label_order: Vec<String>,
    label_counts: Vec<u64>,
    counts: Ghost<Map<Seq<char>, nat>>,
}

impl View for ActiveKeys {
    type V = KeyRegistry;

    closed spec fn view(&self) -> KeyRegistry {
        KeyRegistry {
            codes: self.key_labels@.map_values(|s: String| s@),
            counts: self.counts@,
            order: labels_of(self.label_order@),
        }
    }
}

impl ActiveKeys {
    /// The registry is consistent and its three parts agree.
    pub closed spec fn wf(&self) -> bool {
        &&& self@.inv()
        &&& self.label_counts@.len() == self.label_order@.len()
        &&& forall|i: int|
            0 <= i < self.label_order@.len() ==> self.counts@[#[trigger] self.label_order@[i]@]
                == self.label_counts@[i]
    }

    /// A registry with no key held.
    pub fn new() -> (r: Self)
        ensures
            r.wf(),
            r@ == KeyRegistry::empty(),
    {
        let r = ActiveKeys {
            key_labels: HashMap::new(),
            label_order: Vec::new(),
            label_counts: Vec::new(),
            counts: Ghost(Map::empty()),
        };
        proof {
            lemma_empty_inv();
            assert(r@.codes =~= Map::empty());
            assert(r@.order =~= Seq::empty());
        }
        r
    }

    /// The position of `label` in the display order, if it is shown.
    fn find_label(&self, label: &String) -> (r: Option<usize>)
        ensures
            r is Some ==> r->0 < self.label_order@.len() && self@.order[r->0 as int] == label@,
            r is None ==> !self@.order.contains(label@),
    {
        let mut i: usize = 0;
        while i < self.label_order.len()
            invariant
                i <= self.label_order@.len(),
                forall|j: int| 0 <= j < i ==> self@.order[j] != label@,
            decreases self.label_order@.len() - i,
        {
            if self.label_order[i] == *label {
                return Some(i);
            }
            i = i + 1;
        }
        None
    }

    /// Records that physical key `code`, shown as `label`, went down, and
    /// tells whether `label` joined the display order.
    pub fn press(&mut self, code: u32, label: String) -> (r: bool)
        requires
            old(self).wf(),
        ensures
            final(self).wf(),
            final(self)@ == old(self)@.press(code, label@),
            r == (!old(self)@.codes.contains_key(code) && old(self)@.count_of(label@) == 0),
    {
        if self.key_labels.contains_key(&code) {
            return false;
        }
        let ghost before = self@;
        let idx = self.find_label(&label);
        proof {
            lemma_press_inv(before, code, label@);
            lemma_code_set_bound(codes_labelled(before.codes, label@));
            if idx is None {
                assert(!before.counts.contains_key(label@));
            }
        }
        self.key_labels.insert(code, label.clone());
        match idx {
            Some(i) => {
                let c = self.label_counts[i];
                proof {
                    assert(before.order.contains(label@));
                    assert(self.counts@[self.label_order@[i as int]@] == c);
                }
                self.label_counts.set(i, c + 1);
                self.counts = Ghost(self.counts@.insert(label@, (c + 1) as nat));
                proof {
                    assert(before.order == labels_of(self.label_order@));
                    assert forall|j: int| 0 <= j < self.label_order@.len() implies self.counts@[
                        #[trigger] self.label_order@[j]@] == self.label_counts@[j] by {
                        if j != i {
                            assert(before.order[j] != before.order[i as int]);
                        }
                    }
                    assert(self@.codes =~= before.press(code, label@).codes);
                }
                false
            },
            None => {
                self.label_order.push(label);
                self.label_counts.push(1);
                self.counts = Ghost(self.counts@.insert(label@, 1));
                proof {
                    assert(labels_of(self.label_order@) =~= before.order.push(label@));
                    assert forall|j: int| 0 <= j < self.label_order@.len() implies self.counts@[
                        #[trigger] self.label_order@[j]@] == self.label_counts@[j] by {
                        if j < before.order.len() {
                            assert(before.order[j] == self.label_order@[j]@);
                            assert(before.order.contains(before.order[j]));
                        }
                    }
                    assert(self@.codes =~= before.press(code, label@).codes);
                }
                true
            },
        }
    }

    /// Records that physical key `code` went up, and tells whether a label
    /// left the display order.
    pub fn release(&mut self, code: u32) -> (r: bool)
        requires
            old(self).wf(),
        ensures
            final(self).wf(),
            final(self)@ == old(self)@.release(code),
            r == (old(self)@.codes.contains_key(code) && old(self)@.count_of(
                old(self)@.codes[code],
            ) <= 1),
    {
        let ghost before = self@;
        let removed = self.key_labels.remove(&code);
        match removed {
            None => {
                proof {
                    assert(self@.codes =~= before.codes);
                }
                false
            },
            Some(label) => {
                proof {
                    lemma_release_inv(before, code);
                    assert(before.counts.contains_key(label@));
                }
                let ghost after = before.release(code);
                let found = self.find_label(&label);
                let i = match found {
                    Some(i) => i,
                    None => {
                        proof {
                            assert(false);
                        }
                        return false;
                    },
                };
                let c = self.label_counts[i];
                if c <= 1 {
                    self.label_order.remove(i);
                    self.label_counts.remove(i);
                    self.counts = Ghost(self.counts@.remove(label@));
                    proof {
                        lemma_remove_label_at(before.order, i as int);
                        assert(labels_of(self.label_order@) =~= before.order.remove(i as int));
                        assert forall|j: int| 0 <= j < self.label_order@.len() implies self.counts@[
                            #[trigger] self.label_order@[j]@] == self.label_counts@[j] by {
                            if j < i {
                                assert(before.order[j] != before.order[i as int]);
                            } else {
                                assert(before.order[j + 1] != before.order[i as int]);
                            }
                        }
                        assert(self@.codes =~= after.codes);
                    }
                    true
                } else {
                    self.label_counts.set(i, c - 1);
                    self.counts = Ghost(self.counts@.insert(label@, (c - 1) as nat));
                    proof {
                        assert forall|j: int| 0 <= j < self.label_order@.len() implies self.counts@[
                            #[trigger] self.label_order@[j]@] == self.label_counts@[j] by {
                            if j != i {
                                assert(before.order[j] != before.order[i as int]);
                            }
                        }
                        assert(self@.codes =~= after.codes);
                    }
                    false
                }
            },
        }
    }

    /// Empties all three parts of the registry.
    pub fn clear(&mut self)
        requires
            old(self).wf(),
        ensures
            final(self).wf(),
            final(self)@ == KeyRegistry::empty(),
    {
        self.key_labels.clear();
        self.label_order.clear();
        self.label_counts.clear();
        self.counts = Ghost(Map::empty());
        proof {
            lemma_empty_inv();
            assert(self@.codes =~= Map::empty());
            assert(labels_of(self.label_order@) =~= Seq::empty());
        }
    }

    /// Whether physical key `code` is held.
    pub fn is_down(&self, code: u32) -> (r: bool)
        ensures
            r == self@.codes.contains_key(code),
    {
        self.key_labels.contains_key(&code)
    }

    /// Whether any physical key is held.
    pub fn any_down(&self) -> (r: bool)
        ensures
            r == (self@.codes.dom().len() > 0),
    {
        proof {
            assert(self@.codes.dom() =~= self.key_labels@.dom());
        }
        self.key_labels.len() > 0
    }

    /// A copy of the shown labels, in display order.
    pub fn snapshot(&self) -> (r: Vec<String>)
        ensures
            labels_of(r@) == self@.order,
    {
        let mut r: Vec<String> = Vec::new();
        let mut i: usize = 0;
        while i < self.label_order.len()
            invariant
                i <= self.label_order@.len(),
                r@.len() == i,
                forall|j: int| 0 <= j < i ==> #[trigger] r@[j]@ == self.label_order@[j]@,
            decreases self.label_order@.len() - i,
        {
            r.push(String::from_str(self.label_order[i].as_str()));
            i = i + 1;
        }
        assert(labels_of(r@) =~= labels_of(self.label_order@));
        r
    }
}

/// Shared application state: the active-key registry, the target filter,
/// and the notifier that receives every change of the shown labels.
pub struct AppState {
    pub keys: ActiveKeys,
    pub target_config: TargetConfig,
    pub language: String,
    pub server_alive: bool,
    pub event_tx: Option<tokio::sync::watch::Sender<Vec<String>>>,
    pub cache_buster: u64,
}

impl View for AppState {
    type V = KeyRegistry;

    open spec fn view(&self) -> KeyRegistry {
        self.keys@
    }
}

impl AppState {
    pub open spec fn wf(&self) -> bool {
        self.keys.wf()
    }

    /// Everything but the registry is as in `other`.
    pub open spec fn same_settings(&self, other: &AppState) -> bool {
        &&& self.target_config == other.target_config
        &&& self.language == other.language
        &&& self.server_alive == other.server_alive
        &&& self.event_tx == other.event_tx
        &&& self.cache_buster == other.cache_buster
    }

    /// A state with no key held, the filter disabled and no notifier.
    pub fn new() -> (r: Self)
        ensures
            r.wf(),
            r@ == KeyRegistry::empty(),
            r.target_config.mode@ == "disabled"@,
            r.target_config.value is None,
            r.language@ == "ko"@,
            !r.server_alive,
            r.event_tx is None,
            r.cache_buster == 0,
    {
        AppState {
            keys: ActiveKeys::new(),
            target_config: TargetConfig::default(),
            language: String::from_str("ko"),
            server_alive: false,
            event_tx: None,
            cache_buster: 0,
        }
    }

    /// Installs the notifier that receives the shown labels after each change.
    pub fn set_event_tx(&mut self, tx: tokio::sync::watch::Sender<Vec<String>>)
        ensures
            final(self).keys == old(self).keys,
            final(self).event_tx == Some(tx),
            final(self).target_config == old(self).target_config,
            final(self).language == old(self).language,
            final(self).server_alive == old(self).server_alive,
            final(self).cache_buster == old(self).cache_buster,
    {
        self.event_tx = Some(tx);
    }

    /// Sends the shown labels to the notifier, if one is installed.
    fn notify(&self) {
        match &self.event_tx {
            Some(tx) => publish(tx, self.get_keys()),
            None => {},
        }
    }

    /// Records that physical key `key_code`, shown as `label`, went down.
    ///
    /// A key already held is left alone, so repeats are not counted twice. A
    /// label shown for the first time joins the end of the display order, and
    /// only then is the new order published.
    pub fn add_key(&mut self, key_code: u32, label: String)
        requires
            old(self).wf(),
        ensures
            final(self).wf(),
            final(self)@ == old(self)@.press(key_code, label@),
            final(self).same_settings(old(self)),
    {
        if self.keys.press(key_code, label) {
            self.notify();
        }
    }

    /// Records that physical key `key_code` went up.
    ///
    /// A key not held is ignored. The label stays shown while another held key
    /// carries it; when its last key goes up it leaves the display order, and
    /// the new order is published.
    pub fn remove_key(&mut self, key_code: u32)
        requires
            old(self).wf(),
        ensures
            final(self).wf(),
            final(self)@ == old(self)@.release(key_code),
            final(self).same_settings(old(self)),
    {
        if self.keys.release(key_code) {
            self.notify();
        }
    }

    /// Empties the registry and always publishes the (empty) order, so that
    /// consumers are refreshed even when nothing was held.
    pub fn clear_keys(&mut self)
        requires
            old(self).wf(),
        ensures
            final(self).wf(),
            final(self)@ == KeyRegistry::empty(),
            final(self).same_settings(old(self)),
    {
        self.keys.clear();
        self.notify();
    }

    /// Installs a new target filter. Keys tracked under the old filter are
    /// dropped, and the (empty) order is published.
    pub fn set_target_config(&mut self, target_config: TargetConfig)
        requires
            old(self).wf(),
        ensures
            final(self).wf(),
            final(self)@ == KeyRegistry::empty(),
            final(self).target_config == target_config,
            final(self).language == old(self).language,
            final(self).server_alive == old(self).server_alive,
            final(self).event_tx == old(self).event_tx,
            final(self).cache_buster == old(self).cache_buster,
    {
        self.target_config = target_config;
        self.clear_keys();
    }

    /// Whether physical key `key_code` is held.
    pub fn is_key_pressed(&self, key_code: u32) -> (r: bool)
        ensures
            r == self@.codes.contains_key(key_code),
    {
        self.keys.is_down(key_code)
    }

    /// Stamps the state with the current time, so that pages served from now
    /// on are not taken from a stale cache.
    pub fn bump_cache_buster(&mut self)
        ensures
            final(self).keys == old(self).keys,
            final(self).target_config == old(self).target_config,
            final(self).language == old(self).language,
            final(self).server_alive == old(self).server_alive,
            final(self).event_tx == old(self).event_tx,
    {
        self.cache_buster = unix_millis_now();
    }

    /// The shown labels, in display order.
    pub fn get_keys(&self) -> (r: Vec<String>)
        ensures
            labels_of(r@) == self@.order,
    {
        self.keys.snapshot()
    }
}

/// Every count equals the number of held physical keys that carry its label,
/// no label is counted without a held key, the display order holds no label
/// twice, and its labels are exactly the counted ones.
pub proof fn lemma_state_consistent(s: &AppState)
    requires
        s.wf(),
    ensures
        forall|l: Seq<char>| #[trigger]
            s@.counts.contains_key(l) ==> s@.counts[l] == codes_labelled(s@.codes, l).len(),
        forall|l: Seq<char>| #[trigger]
            codes_labelled(s@.codes, l).len() > 0 ==> s@.counts.contains_key(l),
        s@.order.no_duplicates(),
        s@.order.to_set() == s@.counts.dom(),
{
    assert forall|l: Seq<char>| #[trigger]
        codes_labelled(s@.codes, l).len() > 0 implies s@.counts.contains_key(l) by {
        let c = codes_labelled(s@.codes, l).choose();
        assert(codes_labelled(s@.codes, l).contains(c));
    }
    assert(s@.order.to_set() =~= s@.counts.dom());
}

} // verus!
