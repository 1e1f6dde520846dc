//! Enrichment and per-destination policy: price attachment, allow-list
//! filtering and the minimum-value threshold.

use vstd::prelude::*;

use crate::catalog::{spec_lookup, PriceCatalog, PriceEntryView};
use crate::event::{EnrichedEvent, EventKind, EventView, ExtractedEvent};

verus! {

/// Caller-supplied, per-destination policy. Absent `allowed_kinds`
/// allows every kind; absent `min_item_value` applies no threshold.
#[derive(Debug)]
pub struct PolicyContext {
    pub allowed_kinds: Option<Vec<EventKind>>,
    pub min_item_value: Option<i64>,
}

/// View of a policy.
#[verifier::ext_equal]
pub struct PolicyView {
    pub allowed_kinds: Option<Seq<EventKind>>,
    pub min_item_value: Option<int>,
}

impl View for PolicyContext {
    type V = PolicyView;

    open spec fn view(&self) -> PolicyView {
        PolicyView {
            allowed_kinds: match self.allowed_kinds {
                Some(v) => Some(v@),
                None => None,
            },
            min_item_value: match self.min_item_value {
                Some(t) => Some(t as int),
                None => None,
            },
        }
    }
}

/// Whether the allow-list admits events of kind `k`; an absent list
/// admits every kind.
pub open spec fn spec_allowed(k: EventKind, allowed: Option<Seq<EventKind>>) -> bool {
    match allowed {
        None => true,
        Some(s) => s.contains(k),
    }
}

/// The market value of an event: price times quantity for a drop whose
/// item the catalog knows, `None` otherwise. An unknown price stays
/// unknown; it is never defaulted to zero.
pub open spec fn spec_value(e: EventView, cat: Seq<PriceEntryView>) -> Option<int> {
    match e {
        EventView::ItemDrop { item_name, quantity, .. } => match spec_lookup(cat, item_name) {
            Some(p) => Some(p * quantity),
            None => None,
        },
        _ => None,
    }
}

/// Whether an event of value `v` passes a threshold of `min`. A
/// missing value or a missing threshold always passes: unknown prices
/// fail open.
pub open spec fn spec_passes_threshold(v: Option<int>, min: Option<int>) -> bool {
    match (v, min) {
        (Some(x), Some(t)) => x >= t,
        _ => true,
    }
}

/// The enrichment-and-filter stage: drops events whose kind the
/// allow-list excludes, attaches the market value, and drops
/// known-value events below the threshold.
pub open spec fn spec_apply(
    e: EventView,
    cat: Seq<PriceEntryView>,
    policy: PolicyView,
) -> Option<(EventView, Option<int>)> {
    if !spec_allowed(e.kind(), policy.allowed_kinds) {
        None
    } else {
        let v = spec_value(e, cat);
        if spec_passes_threshold(v, policy.min_item_value) {
            Some((e, v))
        } else {
            None
        }
    }
}

impl View for EnrichedEvent {
    type V = (EventView, Option<int>);

    open spec fn view(&self) -> (EventView, Option<int>) {
        (
            self.event@,
            match self.item_value {
                Some(v) => Some(v as int),
                None => None,
            },
        )
    }
}

/// Whether the policy's allow-list admits kind `k`.
fn kind_allowed(policy: &PolicyContext, k: EventKind) -> (b: bool)
    ensures
        b == spec_allowed(k, policy@.allowed_kinds),
{
    match &policy.allowed_kinds {
        None => true,
        Some(list) => {
            let n = list.len();
            let mut i: usize = 0;
            while i < n
                invariant
                    0 <= i <= n,
                    n == list@.len(),
                    policy@.allowed_kinds == Some(list@),
                    forall|j: int| 0 <= j < i ==> list@[j] != k,
                decreases n - i,
            {
                if list[i] == k {
                    proof {
                        assert(list@[i as int] == k);
                        assert(list@.contains(k));
                    }
                    return true;
                }
                i = i + 1;
            }
            proof {
                assert(!list@.contains(k));
            }
            false
        },
    }
}

/// Applies enrichment and policy to one extracted event: allow-list
/// first, then price attachment, then the minimum-value threshold.
pub fn apply(event: ExtractedEvent, catalog: &PriceCatalog, policy: &PolicyContext) -> (r: Option<
    EnrichedEvent,
>)
    ensures
        match r {
            Some(en) => spec_apply(event@, catalog@, policy@) == Some(en@),
            None => spec_apply(event@, catalog@, policy@) is None,
        },
{
    let k = event.kind();
    if !kind_allowed(policy, k) {
        return None;
    }
    let value: Option<i128> = match &event {
        ExtractedEvent::ItemDrop { item_name, quantity, .. } => {
            match catalog.lookup(item_name.as_str()) {
                Some(p) => {
                    proof {
                        assert((p as int) * (*quantity as int) <= i128::MAX && (p as int) * (
                        *quantity as int) >= i128::MIN) by (nonlinear_arith)
                            requires
                                i64::MIN <= p as int <= i64::MAX,
                                0 <= *quantity as int <= u64::MAX,
                        ;
                    }
                    Some((p as i128) * (*quantity as i128))
                },
                None => None,
            }
        },
        _ => None,
    };
    match (value, policy.min_item_value) {
        (Some(x), Some(t)) => {
            if x < t as i128 {
                return None;
            }
        },
        _ => {},
    }
    Some(EnrichedEvent { event, item_value: value })
}

/// Threshold law: with the kind admitted and a threshold `t` set, a
/// drop whose item has known price `p` and quantity `q` survives the
/// filter exactly when `p * q >= t`, and it survives with that value
/// attached.
pub proof fn lemma_threshold_law(
    player: Seq<char>,
    item: Seq<char>,
    q: int,
    cat: Seq<PriceEntryView>,
    allowed: Option<Seq<EventKind>>,
    p: int,
    t: int,
)
    requires
        spec_lookup(cat, item) == Some(p),
        spec_allowed(EventKind::ItemDrop, allowed),
    ensures
        ({
            let e = EventView::ItemDrop { player: player, item_name: item, quantity: q };
            let policy = PolicyView { allowed_kinds: allowed, min_item_value: Some(t) };
            &&& (spec_apply(e, cat, policy) is Some <==> p * q >= t)
            &&& (p * q >= t ==> spec_apply(e, cat, policy) == Some((e, Some(p * q))))
        }),
{
}

/// Fail-open law: with the kind admitted and the item's price unknown,
/// a drop survives every threshold, with no value attached.
pub proof fn lemma_unknown_price_fails_open(
    player: Seq<char>,
    item: Seq<char>,
    q: int,
    cat: Seq<PriceEntryView>,
    allowed: Option<Seq<EventKind>>,
    min: Option<int>,
)
    requires
        spec_lookup(cat, item) is None,
        spec_allowed(EventKind::ItemDrop, allowed),
    ensures
        ({
            let e = EventView::ItemDrop { player: player, item_name: item, quantity: q };
            let policy = PolicyView { allowed_kinds: allowed, min_item_value: min };
            spec_apply(e, cat, policy) == Some((e, None::<int>))
        }),
{
}

/// Allow-list law: an event whose kind the allow-list excludes is
/// dropped, whatever its other fields, the catalog and the threshold.
pub proof fn lemma_allow_list(e: EventView, cat: Seq<PriceEntryView>, policy: PolicyView)
    requires
        policy.allowed_kinds matches Some(s) && !s.contains(e.kind()),
    ensures
        spec_apply(e, cat, policy) is None,
{
}

} // verus!
