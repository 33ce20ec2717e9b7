use std::collections::{HashMap, VecDeque};
use vstd::prelude::*;
use crate::snowflake::SnowflakeID;

verus! {

broadcast use {vstd::std_specs::hash::group_hash_axioms, vstd::std_specs::vecdeque::group_vec_dequeue_axioms, vstd::seq_lib::group_seq_properties, vstd::set_lib::group_set_lib_default};

/// The text answered for an id that the buffer does not hold.
pub open spec fn not_found_text() -> Seq<char> {
    "Message not found!"@
}

/// Abstract state of a [`MessageBuffer`]: the stored texts by message id, the ids in the
/// order they were added (newest first, an id may occur more than once), and the
/// capacity the buffer was made with.
pub struct BufferModel {
    pub messages: Map<u64, Seq<char>>,
    pub order: Seq<u64>,
    pub max_size: nat,
}

impl BufferModel {
    /// The buffer just after `new(max_size)`.
    pub open spec fn empty(max_size: nat) -> BufferModel {
        BufferModel { messages: Map::empty(), order: Seq::empty(), max_size }
    }

    /// `true` when the buffer is full, so that an addition first evicts the oldest id.
    pub open spec fn evicts(self) -> bool {
        self.messages.len() >= self.max_size && self.order.len() > 0
    }

    /// The id that an addition evicts, when it evicts one.
    pub open spec fn oldest(self) -> u64 {
        self.order.last()
    }

    /// The state after adding `text` under `id`: when the buffer holds `max_size` texts or
    /// more, the oldest id is dropped from the order and its text forgotten; then the text is
    /// stored (replacing any earlier text of that id) and the id put at the front.
    pub open spec fn add(self, id: u64, text: Seq<char>) -> BufferModel {
        let (msgs, ord) = if self.evicts() {
            (self.messages.remove(self.oldest()), self.order.drop_last())
        } else {
            (self.messages, self.order)
        };
        BufferModel { messages: msgs.insert(id, text), order: seq![id] + ord, max_size: self.max_size }
    }

    /// The text answered for `id`.
    pub open spec fn get(self, id: u64) -> Seq<char> {
        if self.messages.contains_key(id) { self.messages[id] } else { not_found_text() }
    }

    /// Every stored id is listed in the order.
    pub open spec fn well_formed(self) -> bool {
        forall|k: u64| self.messages.contains_key(k) ==> self.order.contains(k)
    }
}

/// A bounded store of the last messages seen, by id, used to show the text of a message
/// when it is later deleted or acknowledged.
pub struct MessageBuffer {
    message: HashMap<u64, String>,
    key_order: VecDeque<u64>,
    max_size: usize,
}

impl View for MessageBuffer {
    type V = BufferModel;

    closed spec fn view(&self) -> BufferModel {
        BufferModel {
            messages: self.message@.map_values(|s: String| s@),
            order: self.key_order@,
            max_size: self.max_size as nat,
        }
    }
}

impl MessageBuffer {
    /// The capacity the buffer was made with.
    pub closed spec fn capacity(&self) -> usize {
        self.max_size
    }

    /// An empty buffer that keeps about `max_size` messages.
    pub fn new(max_size: usize) -> (r: Self)
        ensures
            r@ == BufferModel::empty(max_size as nat),
            r@.well_formed(),
    {
        let r = MessageBuffer {
            message: HashMap::with_capacity(max_size),
            key_order: VecDeque::with_capacity(max_size),
            max_size,
        };
        assert(r@.messages =~= Map::empty());
        r
    }

    /// Stores `message` under `id`, evicting the oldest id first when the buffer is full.
    pub fn add_message(&mut self, id: SnowflakeID, message: String)
        ensures
            final(self)@ == old(self)@.add(id.0, message@),
            old(self)@.well_formed() ==> final(self)@.well_formed(),
    {
        let ghost m0 = self@;
        let ghost hm0 = self.message@;
        proof {
            assert(m0.messages.dom() =~= hm0.dom());
        }
        if self.message.len() >= self.max_size {
            if let Some(oldest) = self.key_order.pop_back() {
                self.message.remove(&oldest);
                proof {
                    assert(m0.evicts());
                    assert(oldest == m0.oldest());
                    assert(self.message@ == hm0.remove(oldest));
                }
            } else {
                proof { assert(!m0.evicts()); }
            }
        } else {
            proof { assert(!m0.evicts()); }
        }
        let ghost hm1 = self.message@;
        self.message.insert(id.0, message);
        self.key_order.push_front(id.0);
        proof {
            let m1 = m0.add(id.0, message@);
            if m0.evicts() {
                assert(hm1 == hm0.remove(m0.oldest()));
            } else {
                assert(hm1 == hm0);
            }
            assert(self@.messages =~= m1.messages) by {
                assert forall|k: u64| #[trigger] self@.messages.contains_key(k) <==> m1.messages.contains_key(k) by {}
                assert forall|k: u64| self@.messages.contains_key(k) implies #[trigger] self@.messages[k] == m1.messages[k] by {}
            }
            assert(self@.order =~= m1.order);
            if m0.well_formed() {
                assert forall|k: u64| self@.messages.contains_key(k) implies self@.order.contains(k) by {
                    if k != id.0 {
                        assert(m0.messages.contains_key(k));
                        assert(m0.order.contains(k));
                        let j = choose|j: int| 0 <= j < m0.order.len() && m0.order[j] == k;
                        if m0.evicts() {
                            assert(j != m0.order.len() - 1);
                            assert(self@.order[j + 1] == k);
                        } else {
                            assert(self@.order[j + 1] == k);
                        }
                    } else {
                        assert(self@.order[0] == k);
                    }
                }
            }
        }
    }

    /// The text stored under `id`, or `"Message not found!"`.
    pub fn get_message(&self, id: SnowflakeID) -> (r: &str)
        ensures
            r@ == self@.get(id.0),
    {
        match self.message.get(&id.0) {
            Some(s) => s.as_str(),
            None => {
                let r = "Message not found!";
                r
            },
        }
    }
}

/// Reading an id just after adding it gives back the added text.
pub proof fn law_read_after_add(b: BufferModel, id: u64, text: Seq<char>)
    ensures
        b.add(id, text).get(id) == text,
{
}

/// Adding under one id changes what another id reads only when that other id is the one
/// evicted.
pub proof fn law_add_keeps_others(b: BufferModel, id: u64, text: Seq<char>, k: u64)
    requires
        k != id,
        !(b.evicts() && b.oldest() == k),
    ensures
        b.add(id, text).get(k) == b.get(k),
{
}

/// While the order lists exactly the stored ids, once each, adding a new id keeps the
/// buffer within its capacity (for a positive capacity) and keeps the order exact.
pub proof fn law_capacity(b: BufferModel, id: u64, text: Seq<char>)
    requires
        b.max_size > 0,
        b.messages.len() <= b.max_size,
        b.order.no_duplicates(),
        b.order.to_set() == b.messages.dom(),
        b.messages.dom().finite(),
        !b.messages.contains_key(id),
    ensures
        b.add(id, text).messages.len() <= b.max_size,
        b.add(id, text).order.no_duplicates(),
        b.add(id, text).order.to_set() == b.add(id, text).messages.dom(),
{
    let a = b.add(id, text);
    if b.evicts() {
        let o = b.oldest();
        assert(b.order.contains(o));
        assert(b.messages.contains_key(o));
        assert(b.messages.remove(o).len() == b.messages.len() - 1);
        assert(!b.order.drop_last().contains(o)) by {
            if b.order.drop_last().contains(o) {
                let j = choose|j: int| 0 <= j < b.order.len() - 1 && b.order.drop_last()[j] == o;
                assert(b.order[j] == b.order[b.order.len() - 1]);
            }
        }
        assert(b.order.drop_last().to_set() =~= b.messages.dom().remove(o)) by {
            assert forall|x: u64| b.order.drop_last().to_set().contains(x) <==> b.messages.dom().remove(o).contains(x) by {
                if b.order.drop_last().contains(x) {
                    let j = choose|j: int| 0 <= j < b.order.len() - 1 && b.order.drop_last()[j] == x;
                    assert(b.order.contains(x));
                }
                if b.messages.dom().remove(o).contains(x) {
                    assert(b.order.contains(x));
                    let j = choose|j: int| 0 <= j < b.order.len() && b.order[j] == x;
                    assert(j != b.order.len() - 1);
                    assert(b.order.drop_last()[j] == x);
                }
            }
        }
        assert(!b.order.drop_last().contains(id));
        assert(a.order.to_set() =~= a.messages.dom()) by {
            assert forall|x: u64| a.order.to_set().contains(x) <==> a.messages.dom().contains(x) by {
                if a.order.contains(x) && x != id {
                    let j = choose|j: int| 0 <= j < a.order.len() && a.order[j] == x;
                    assert(b.order.drop_last()[j - 1] == x);
                }
                if a.messages.dom().contains(x) && x != id {
                    assert(b.order.drop_last().contains(x));
                    let j = choose|j: int| 0 <= j < b.order.len() - 1 && b.order.drop_last()[j] == x;
                    assert(a.order[j + 1] == x);
                }
            }
        }
    } else {
        assert(b.messages.len() < b.max_size) by {
            if b.order.len() == 0 {
                assert(b.messages.dom() =~= Set::empty());
            }
        }
        assert(!b.order.contains(id));
        assert(a.order.to_set() =~= a.messages.dom()) by {
            assert forall|x: u64| a.order.to_set().contains(x) <==> a.messages.dom().contains(x) by {
                if a.order.contains(x) && x != id {
                    let j = choose|j: int| 0 <= j < a.order.len() && a.order[j] == x;
                    assert(b.order[j - 1] == x);
                }
                if a.messages.dom().contains(x) && x != id {
                    assert(b.order.contains(x));
                    let j = choose|j: int| 0 <= j < b.order.len() && b.order[j] == x;
                    assert(a.order[j + 1] == x);
                }
            }
        }
    }
    assert(a.order.no_duplicates()) by {
        assert forall|i: int, j: int| 0 <= i < a.order.len() && 0 <= j < a.order.len() && i != j implies a.order[i] != a.order[j] by {
            if i > 0 && j > 0 {
                if b.evicts() {
                    assert(a.order[i] == b.order.drop_last()[i - 1]);
                    assert(a.order[j] == b.order.drop_last()[j - 1]);
                } else {
                    assert(a.order[i] == b.order[i - 1]);
                    assert(a.order[j] == b.order[j - 1]);
                }
            } else if i == 0 {
                if b.evicts() {
                    assert(b.order.drop_last().contains(a.order[j]));
                } else {
                    assert(b.order.contains(a.order[j]));
                }
            } else {
                if b.evicts() {
                    assert(b.order.drop_last().contains(a.order[i]));
                } else {
                    assert(b.order.contains(a.order[i]));
                }
            }
        }
    }
}

/// The buffer made with capacity `n` after adding `texts` under `ids`, in order.
pub open spec fn added_all(n: nat, ids: Seq<u64>, texts: Seq<Seq<char>>) -> BufferModel
    decreases ids.len(),
{
    if ids.len() == 0 || texts.len() == 0 {
        BufferModel::empty(n)
    } else {
        added_all(n, ids.drop_last(), texts.drop_last()).add(ids.last(), texts.last())
    }
}

/// The position of the oldest of `k` additions that a buffer of capacity `n` still holds.
pub open spec fn first_kept(n: nat, k: int) -> int {
    if k > n { k - n } else { 0 }
}

/// A buffer of capacity `n` (at least one) that was given messages under distinct ids keeps
/// exactly the last `n` of them, with their texts, newest first in its order; the older
/// ones were evicted, oldest first, and read as not found.
pub proof fn law_keeps_last_n(n: nat, ids: Seq<u64>, texts: Seq<Seq<char>>)
    requires
        n >= 1,
        ids.len() == texts.len(),
        ids.no_duplicates(),
    ensures
        added_all(n, ids, texts).max_size == n,
        added_all(n, ids, texts).order == ids.subrange(first_kept(n, ids.len() as int), ids.len() as int).reverse(),
        added_all(n, ids, texts).messages.dom() == ids.subrange(first_kept(n, ids.len() as int), ids.len() as int).to_set(),
        forall|j: int| first_kept(n, ids.len() as int) <= j < ids.len() ==> added_all(n, ids, texts).get(#[trigger] ids[j]) == texts[j],
        forall|j: int| 0 <= j < first_kept(n, ids.len() as int) ==> added_all(n, ids, texts).get(#[trigger] ids[j]) == not_found_text(),
    decreases ids.len(),
{
    let k = ids.len() as int;
    let lo = first_kept(n, k);
    let b = added_all(n, ids, texts);
    if k == 0 {
        assert(b.order =~= ids.subrange(lo, k).reverse());
        assert(b.messages.dom() =~= ids.subrange(lo, k).to_set());
    } else {
        let pi = ids.drop_last();
        let pt = texts.drop_last();
        let kp = k - 1;
        let lop = first_kept(n, kp);
        law_keeps_last_n(n, pi, pt);
        let bp = added_all(n, pi, pt);
        assert(b == bp.add(ids.last(), texts.last()));
        let sp = pi.subrange(lop, kp);
        assert(sp.no_duplicates());
        sp.unique_seq_to_set();
        assert(bp.messages.dom().len() == kp - lop);
        assert(bp.messages.len() == kp - lop);
        assert(bp.order.len() == kp - lop);
        assert(forall|j: int| 0 <= j < kp ==> pi[j] == ids[j]);
        let id = ids.last();
        assert(!sp.contains(id)) by {
            if sp.contains(id) {
                let j = choose|j: int| 0 <= j < sp.len() && sp[j] == id;
                assert(ids[lop + j] == ids[k - 1]);
            }
        }
        if kp >= n as int {
            assert(bp.evicts());
            assert(bp.oldest() == ids[lop]);
            assert(b.order =~= ids.subrange(lo, k).reverse());
            assert(b.messages.dom() =~= ids.subrange(lo, k).to_set()) by {
                assert forall|x: u64| b.messages.dom().contains(x) <==> ids.subrange(lo, k).to_set().contains(x) by {
                    if ids.subrange(lo, k).to_set().contains(x) {
                        let j = choose|j: int| 0 <= j < ids.subrange(lo, k).len() && ids.subrange(lo, k)[j] == x;
                        if lo + j < k - 1 {
                            assert(sp[j + 1] == x);
                            assert(x != ids[lop]) by {
                                assert(ids[lo + j] != ids[lop]);
                            }
                        }
                    }
                    if b.messages.dom().contains(x) && x != id {
                        assert(sp.contains(x));
                        let j = choose|j: int| 0 <= j < sp.len() && sp[j] == x;
                        assert(j != 0);
                        assert(ids.subrange(lo, k)[j - 1] == x);
                    }
                }
            }
        } else {
            assert(!bp.evicts());
            assert(b.order =~= ids.subrange(lo, k).reverse());
            assert(b.messages.dom() =~= ids.subrange(lo, k).to_set()) by {
                assert forall|x: u64| b.messages.dom().contains(x) <==> ids.subrange(lo, k).to_set().contains(x) by {
                    if ids.subrange(lo, k).to_set().contains(x) {
                        let j = choose|j: int| 0 <= j < ids.subrange(lo, k).len() && ids.subrange(lo, k)[j] == x;
                        if j < k - 1 {
                            assert(sp[j] == x);
                        }
                    }
                    if b.messages.dom().contains(x) && x != id {
                        assert(sp.contains(x));
                        let j = choose|j: int| 0 <= j < sp.len() && sp[j] == x;
                        assert(ids.subrange(lo, k)[j] == x);
                    }
                }
            }
        }
        assert forall|j: int| lo <= j < k implies b.get(#[trigger] ids[j]) == texts[j] by {
            if j < k - 1 {
                assert(pi[j] == ids[j] && pt[j] == texts[j]);
                assert(ids[j] != id);
                assert(bp.get(pi[j]) == pt[j]);
                if bp.evicts() {
                    assert(ids[j] != ids[lop]);
                }
            }
        }
        assert forall|j: int| 0 <= j < lo implies b.get(#[trigger] ids[j]) == not_found_text() by {
            assert(pi[j] == ids[j]);
            assert(ids[j] != id);
            if j < lop {
                assert(bp.get(pi[j]) == not_found_text());
            } else {
                assert(j == lop);
            }
        }
    }
}

} // verus!
