use vstd::prelude::*;
use crate::addr::Address;
use crate::pda::authority_pda;
use crate::pda::derive_authority;

verus! {

// ---------------------------------------------------------------------------
// Multisig discovery
//
// The ledger stores no reverse index from an authority to its multisig; the
// durable trace is that some past transaction referenced the multisig as one
// of its accounts. Discovery therefore replays an address's transaction
// history, oldest first — the registering transaction is presumed the first
// legitimate reference — and returns the first referenced account whose
// derived authority equals the target. Failed transactions are skipped, and
// so is any transaction the caller could not fetch or decode.
// ---------------------------------------------------------------------------

/// One entry of an address's transaction history, newest first as the
/// ledger reports it: the transaction's signature and whether it failed.
pub struct HistoryEntry {
    pub signature: Vec<u8>,
    pub failed: bool,
}

pub ghost struct HistoryEntryView {
    pub signature: Seq<u8>,
    pub failed: bool,
}

impl View for HistoryEntry {
    type V = HistoryEntryView;

    open spec fn view(&self) -> HistoryEntryView {
        HistoryEntryView { signature: self.signature@, failed: self.failed }
    }
}

impl DeepView for HistoryEntry {
    type V = HistoryEntryView;

    open spec fn deep_view(&self) -> HistoryEntryView {
        self@
    }
}

/// The signatures worth scanning, oldest first: the history arrives newest
/// first, and failed transactions cannot have finalized an index.
pub open spec fn scan_queue_of(history: Seq<HistoryEntryView>) -> Seq<Seq<u8>>
    decreases history.len(),
{
    if history.len() == 0 {
        Seq::empty()
    } else {
        let oldest = history.last();
        let rest = scan_queue_of(history.drop_last());
        if oldest.failed {
            rest
        } else {
            seq![oldest.signature] + rest
        }
    }
}

/// Turns a newest-first history into the oldest-first queue of signatures
/// of successful transactions, in the order discovery must visit them.
pub fn scan_queue(history: Vec<HistoryEntry>) -> (q: Vec<Vec<u8>>)
    ensures
        q.deep_view() == scan_queue_of(history.deep_view()),
{
    let ghost full = history.deep_view();
    let mut h = history;
    let mut q: Vec<Vec<u8>> = Vec::new();
    while h.len() > 0
        invariant
            scan_queue_of(full) =~= q.deep_view() + scan_queue_of(h.deep_view()),
        decreases h.len(),
    {
        let ghost h_before = h.deep_view();
        let e = h.pop().unwrap();
        proof {
            assert(h.deep_view() =~= h_before.drop_last());
            assert(e@ == h_before.last());
        }
        if !e.failed {
            let ghost q_before = q.deep_view();
            let ghost sig = e.signature@;
            q.push(e.signature);
            proof {
                assert(q.deep_view() =~~= q_before + seq![sig]);
                assert(q.deep_view() + scan_queue_of(h.deep_view()) =~= q_before + (seq![sig]
                    + scan_queue_of(h.deep_view())));
            }
        }
    }
    proof {
        assert(h.deep_view() =~= Seq::<HistoryEntryView>::empty());
        assert(q.deep_view() =~= scan_queue_of(full));
    }
    q
}

/// Whether this account key's derived authority is the target.
pub open spec fn derives_target(key: Seq<u8>, target: Seq<u8>) -> bool {
    match authority_pda(key) {
        Some(p) => p.0 == target,
        None => false,
    }
}

/// The first account key in the list whose derived authority is the target.
pub open spec fn first_match(keys: Seq<Seq<u8>>, target: Seq<u8>) -> Option<Seq<u8>>
    decreases keys.len(),
{
    if keys.len() == 0 {
        None
    } else if derives_target(keys[0], target) {
        Some(keys[0])
    } else {
        first_match(keys.skip(1), target)
    }
}

/// A no-match prefix does not change what the first match is.
proof fn lemma_first_match_skip(keys: Seq<Seq<u8>>, target: Seq<u8>, i: int)
    requires
        0 <= i <= keys.len(),
        forall|j: int| 0 <= j < i ==> !derives_target(keys[j], target),
    ensures
        first_match(keys, target) == first_match(keys.skip(i), target),
    decreases i,
{
    if i > 0 {
        lemma_first_match_skip(keys, target, i - 1);
        assert(keys.skip(i - 1)[0] == keys[i - 1]);
        assert(keys.skip(i - 1).skip(1) =~= keys.skip(i));
    } else {
        assert(keys.skip(0) =~= keys);
    }
}

/// Scans one transaction's referenced account keys, in order, for the first
/// whose derived authority equals the target.
pub fn match_in_transaction(target: &Address, keys: &Vec<Address>) -> (r: Option<Address>)
    ensures
        match r {
            Some(k) => first_match(keys.deep_view(), target@) == Some(k@),
            None => first_match(keys.deep_view(), target@) is None,
        },
{
    let n = keys.len();
    let mut i: usize = 0;
    while i < n
        invariant
            0 <= i <= n,
            n == keys.deep_view().len(),
            forall|j: int| 0 <= j < i ==> !derives_target(keys.deep_view()[j], target@),
        decreases n - i,
    {
        let candidate = &keys[i];
        if let Some(p) = derive_authority(candidate) {
            if p.0.equals(target) {
                proof {
                    lemma_first_match_skip(keys.deep_view(), target@, i as int);
                    assert(keys.deep_view().skip(i as int)[0] == keys.deep_view()[i as int]);
                }
                return Some(*candidate);
            }
        }
        proof {
            assert(!derives_target(keys.deep_view()[i as int], target@));
        }
        i += 1;
    }
    proof {
        lemma_first_match_skip(keys.deep_view(), target@, n as int);
        assert(keys.deep_view().skip(n as int) =~= Seq::<Seq<u8>>::empty());
    }
    None
}

/// The whole scan over a sequence of transactions, each either decoded to
/// its referenced account keys or undecodable (`None`, skipped): the first
/// match in the first transaction that has one.
pub open spec fn scan_result(txs: Seq<Option<Seq<Seq<u8>>>>, target: Seq<u8>) -> Option<Seq<u8>>
    decreases txs.len(),
{
    if txs.len() == 0 {
        None
    } else {
        let head = match txs[0] {
            Some(keys) => first_match(keys, target),
            None => None,
        };
        if head is Some {
            head
        } else {
            scan_result(txs.skip(1), target)
        }
    }
}

/// Scans decoded transactions, oldest first, stopping at the first match.
pub fn scan_transactions(target: &Address, txs: &Vec<Option<Vec<Address>>>) -> (r: Option<
    Address,
>)
    ensures
        match r {
            Some(k) => scan_result(txs.deep_view(), target@) == Some(k@),
            None => scan_result(txs.deep_view(), target@) is None,
        },
{
    let n = txs.len();
    proof {
        assert(txs.deep_view().skip(0) =~= txs.deep_view());
    }
    let mut i: usize = 0;
    while i < n
        invariant
            0 <= i <= n,
            n == txs.deep_view().len(),
            scan_result(txs.deep_view(), target@) == scan_result(
                txs.deep_view().skip(i as int),
                target@,
            ),
        decreases n - i,
    {
        let ghost pending = txs.deep_view().skip(i as int);
        proof {
            assert(pending[0] == txs.deep_view()[i as int]);
            assert(pending.skip(1) =~= txs.deep_view().skip(i as int + 1));
        }
        match &txs[i] {
            Some(keys) => {
                proof {
                    assert(txs.deep_view()[i as int] == Some(keys.deep_view()));
                }
                if let Some(k) = match_in_transaction(target, keys) {
                    proof {
                        assert(scan_result(pending, target@) == Some(k@));
                    }
                    return Some(k);
                }
                proof {
                    assert(tx_has_no_match(txs.deep_view()[i as int], target@));
                }
            },
            None => {
                proof {
                    assert(txs.deep_view()[i as int] is None);
                }
            },
        }
        i += 1;
    }
    proof {
        assert(txs.deep_view().skip(n as int) =~= Seq::<Option<Seq<Seq<u8>>>>::empty());
    }
    None
}

// ---------------------------------------------------------------------------
// Termination and first-qualifying-transaction guarantees
// ---------------------------------------------------------------------------

/// Whether a transaction, as decoded (or not), contains no matching key.
pub open spec fn tx_has_no_match(tx: Option<Seq<Seq<u8>>>, target: Seq<u8>) -> bool {
    match tx {
        Some(keys) => first_match(keys, target) is None,
        None => true,
    }
}

/// Discovery over a history none of whose transactions references a matching
/// account ends with no result.
pub proof fn lemma_scan_not_found(txs: Seq<Option<Seq<Seq<u8>>>>, target: Seq<u8>)
    requires
        forall|i: int| 0 <= i < txs.len() ==> tx_has_no_match(txs[i], target),
    ensures
        scan_result(txs, target) is None,
    decreases txs.len(),
{
    if txs.len() > 0 {
        assert(tx_has_no_match(txs[0], target));
        assert(forall|i: int| 0 <= i < txs.skip(1).len() ==> tx_has_no_match(
            #[trigger] txs.skip(1)[i],
            target,
        ));
        lemma_scan_not_found(txs.skip(1), target);
    }
}

/// Discovery returns the match from the first qualifying transaction — as
/// soon as, and no later than, that transaction is reached.
pub proof fn lemma_scan_first_qualifying(txs: Seq<Option<Seq<Seq<u8>>>>, target: Seq<u8>, i: int)
    requires
        0 <= i < txs.len(),
        forall|j: int| 0 <= j < i ==> tx_has_no_match(txs[j], target),
        !tx_has_no_match(txs[i], target),
    ensures
        txs[i] matches Some(keys) && scan_result(txs, target) == first_match(keys, target),
    decreases i,
{
    if i > 0 {
        assert(forall|j: int| 0 <= j < i - 1 ==> tx_has_no_match(#[trigger] txs.skip(1)[j], target));
        assert(txs.skip(1)[i - 1] == txs[i]);
        lemma_scan_first_qualifying(txs.skip(1), target, i - 1);
    }
}

} // verus!
