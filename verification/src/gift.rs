//! Gifts that come in several receipts, shown as one.
use vstd::prelude::*;
use vstd::string::*;

use crate::text;

verus! {

/// One receipt of a gift, and how many were given with it.
#[derive(Debug)]
pub struct GiftReceipt {
    pub id: String,
    pub quantity: u64,
}

/// What is known of a gift.
#[derive(Debug)]
pub struct GiftDetails {
    pub name: String,
    pub action: String,
    /// The box that the gift came out of.
    pub blind_gift: Option<String>,
    pub receipts: Vec<GiftReceipt>,
    /// How many the platform says were given in all.
    pub reported_quantity: u64,
}

/// A receipt of that name is there.
pub open spec fn has_receipt(receipts: Seq<GiftReceipt>, id: Seq<char>) -> bool {
    exists|i: int| 0 <= i < receipts.len() && (#[trigger] receipts[i]).id@ == id
}

/// The receipts with one more, unless it is there already.
pub open spec fn with_receipt(receipts: Seq<GiftReceipt>, receipt: GiftReceipt) -> Seq<
    GiftReceipt,
> {
    if has_receipt(receipts, receipt.id@) {
        receipts
    } else {
        receipts.push(receipt)
    }
}

/// The receipts with others, each once.
pub open spec fn with_receipts(receipts: Seq<GiftReceipt>, more: Seq<GiftReceipt>) -> Seq<
    GiftReceipt,
>
    decreases more.len(),
{
    if more.len() == 0 {
        receipts
    } else {
        with_receipt(with_receipts(receipts, more.drop_last()), more.last())
    }
}

/// How many were given with the receipts.
pub open spec fn receipts_sum(receipts: Seq<GiftReceipt>) -> nat
    decreases receipts.len(),
{
    if receipts.len() == 0 {
        0
    } else {
        receipts_sum(receipts.drop_last()) + receipts.last().quantity as nat
    }
}

pub open spec fn larger(a: int, b: int) -> int {
    if a < b {
        b
    } else {
        a
    }
}

proof fn lemma_receipts_stay(receipts: Seq<GiftReceipt>, more: Seq<GiftReceipt>, id: Seq<char>)
    requires
        has_receipt(receipts, id),
    ensures
        has_receipt(with_receipts(receipts, more), id),
    decreases more.len(),
{
    if more.len() > 0 {
        lemma_receipts_stay(receipts, more.drop_last(), id);
        let before = with_receipts(receipts, more.drop_last());
        let i = choose|i: int| 0 <= i < before.len() && (#[trigger] before[i]).id@ == id;
        assert(with_receipts(receipts, more)[i].id@ == id);
    }
}

proof fn lemma_receipts_are_there(receipts: Seq<GiftReceipt>, more: Seq<GiftReceipt>, at: int)
    requires
        0 <= at < more.len(),
    ensures
        has_receipt(with_receipts(receipts, more), more[at].id@),
    decreases more.len(),
{
    let before = with_receipts(receipts, more.drop_last());
    let after = with_receipts(receipts, more);
    if at == more.len() - 1 {
        if !has_receipt(before, more.last().id@) {
            assert(after[before.len() as int].id@ == more[at].id@);
        }
    } else {
        lemma_receipts_are_there(receipts, more.drop_last(), at);
        let id = more[at].id@;
        assert(more.drop_last()[at] == more[at]);
        let i = choose|i: int| 0 <= i < before.len() && (#[trigger] before[i]).id@ == id;
        assert(after[i].id@ == id);
    }
}

proof fn lemma_known_receipts(receipts: Seq<GiftReceipt>, more: Seq<GiftReceipt>)
    requires
        forall|i: int| 0 <= i < more.len() ==> has_receipt(receipts, (#[trigger] more[i]).id@),
    ensures
        with_receipts(receipts, more) == receipts,
    decreases more.len(),
{
    if more.len() > 0 {
        assert forall|i: int| 0 <= i < more.drop_last().len() implies has_receipt(
            receipts,
            (#[trigger] more.drop_last()[i]).id@,
        ) by {
            assert(more.drop_last()[i] == more[i]);
        }
        lemma_known_receipts(receipts, more.drop_last());
        assert(has_receipt(receipts, more[more.len() - 1].id@));
    }
}

proof fn lemma_sum_grows(receipts: Seq<GiftReceipt>, more: Seq<GiftReceipt>)
    ensures
        receipts_sum(with_receipts(receipts, more)) >= receipts_sum(receipts),
        with_receipts(receipts, more).len() >= receipts.len(),
    decreases more.len(),
{
    if more.len() > 0 {
        lemma_sum_grows(receipts, more.drop_last());
        let before = with_receipts(receipts, more.drop_last());
        assert(before.push(more.last()).drop_last() =~= before);
    }
}

/// A receipt counts once, however often it is told of: taking the same receipts in again changes
/// nothing.
pub proof fn law_a_receipt_counts_once(receipts: Seq<GiftReceipt>, more: Seq<GiftReceipt>)
    ensures
        with_receipts(with_receipts(receipts, more), more) == with_receipts(receipts, more),
{
    assert forall|i: int| 0 <= i < more.len() implies has_receipt(
        with_receipts(receipts, more),
        (#[trigger] more[i]).id@,
    ) by {
        lemma_receipts_are_there(receipts, more, i);
    }
    lemma_known_receipts(with_receipts(receipts, more), more);
}

/// What was given never becomes less, whatever else is told of it.
pub proof fn law_gifts_never_shrink(known: GiftDetails, incoming: GiftDetails, after: GiftDetails)
    requires
        combined(known, incoming, after),
    ensures
        after.amount() >= known.amount(),
        after.amount() >= incoming.reported_quantity,
        forall|id: Seq<char>| #[trigger]
            has_receipt(known.receipts@, id) ==> has_receipt(after.receipts@, id),
{
    lemma_sum_grows(known.receipts@, incoming.receipts@);
    assert forall|id: Seq<char>| #[trigger] has_receipt(known.receipts@, id) implies has_receipt(
        after.receipts@,
        id,
    ) by {
        lemma_receipts_stay(known.receipts@, incoming.receipts@, id);
    }
}

/// What another report of a gift adds to what is known of it.
pub open spec fn adds(known: GiftDetails, incoming: GiftDetails) -> bool {
    with_receipts(known.receipts@, incoming.receipts@).len() != known.receipts@.len()
        || incoming.reported_quantity > known.reported_quantity
}

/// A gift after another report of it: the receipts of both, each once.
pub open spec fn combined(known: GiftDetails, incoming: GiftDetails, after: GiftDetails) -> bool {
    &&& after == (GiftDetails {
        receipts: after.receipts,
        reported_quantity: larger(
            known.reported_quantity as int,
            incoming.reported_quantity as int,
        ) as u64,
        ..known
    })
    &&& after.receipts@ == with_receipts(known.receipts@, incoming.receipts@)
}

fn knows(receipts: &Vec<GiftReceipt>, id: &str) -> (r: bool)
    ensures
        r == has_receipt(receipts@, id@),
{
    let mut i: usize = 0;
    while i < receipts.len()
        invariant
            i <= receipts@.len(),
            forall|k: int| 0 <= k < i ==> (#[trigger] receipts@[k]).id@ != id@,
        decreases receipts@.len() - i,
    {
        if text::same(receipts[i].id.as_str(), id) {
            return true;
        }
        i = i + 1;
    }
    false
}

impl GiftDetails {
    /// How many were given: as many as the receipts say, or as the platform says in all.
    pub open spec fn amount(self) -> int {
        larger(
            if receipts_sum(self.receipts@) < u64::MAX {
                receipts_sum(self.receipts@) as int
            } else {
                u64::MAX as int
            },
            self.reported_quantity as int,
        )
    }

    pub fn quantity(&self) -> (r: u64)
        ensures
            r == self.amount(),
    {
        let mut sum: u64 = 0;
        let mut i: usize = 0;
        while i < self.receipts.len()
            invariant
                i <= self.receipts@.len(),
                sum == (if receipts_sum(self.receipts@.take(i as int)) < u64::MAX {
                    receipts_sum(self.receipts@.take(i as int)) as int
                } else {
                    u64::MAX as int
                }),
            decreases self.receipts@.len() - i,
        {
            proof {
                assert(self.receipts@.take(i + 1).drop_last() =~= self.receipts@.take(i as int));
            }
            sum = sum.saturating_add(self.receipts[i].quantity);
            i = i + 1;
        }
        proof {
            assert(self.receipts@.take(i as int) =~= self.receipts@);
        }
        if sum < self.reported_quantity {
            self.reported_quantity
        } else {
            sum
        }
    }

    /// The gift as it is told.
    pub open spec fn told(self) -> Seq<char> {
        self.action@ + " "@ + self.name@ + " ×"@ + text::decimal_digits(self.amount() as nat)
    }

    pub fn content(&self) -> (r: String)
        ensures
            r@ == self.told(),
    {
        let mut out: String = text::add3(self.action.as_str(), " ", self.name.as_str());
        out.append(" ×");
        out.append(text::decimal(self.quantity()).as_str());
        out
    }

    /// Takes another report of the gift in. The answer says whether it adds anything.
    pub fn combine(&mut self, incoming: &GiftDetails) -> (r: bool)
        ensures
            combined(*old(self), *incoming, *final(self)),
            r == adds(*old(self), *incoming),
            !r ==> *final(self) == *old(self),
    {
        let ghost known = *self;
        let count: usize = self.receipts.len();
        let mut i: usize = 0;
        while i < incoming.receipts.len()
            invariant
                i <= incoming.receipts@.len(),
                *self == (GiftDetails { receipts: self.receipts, ..known }),
                self.receipts@ == with_receipts(
                    known.receipts@,
                    incoming.receipts@.take(i as int),
                ),
                count == known.receipts@.len(),
                self.receipts@.len() >= count,
                self.receipts@.len() == count ==> *self == known,
            decreases incoming.receipts@.len() - i,
        {
            let receipt: &GiftReceipt = &incoming.receipts[i];
            proof {
                assert(incoming.receipts@.take(i + 1).drop_last() =~= incoming.receipts@.take(
                    i as int,
                ));
            }
            if !knows(&self.receipts, receipt.id.as_str()) {
                self.receipts.push(
                    GiftReceipt { id: receipt.id.clone(), quantity: receipt.quantity },
                );
            }
            i = i + 1;
        }
        proof {
            assert(incoming.receipts@.take(i as int) =~= incoming.receipts@);
        }
        let mut added: bool = self.receipts.len() != count;
        if incoming.reported_quantity > self.reported_quantity {
            self.reported_quantity = incoming.reported_quantity;
            added = true;
        }
        added
    }
}

/// Two reports of a gift have together exactly the receipts of either.
pub proof fn law_receipts_are_those_of_either(
    receipts: Seq<GiftReceipt>,
    more: Seq<GiftReceipt>,
    id: Seq<char>,
)
    ensures
        has_receipt(with_receipts(receipts, more), id) <==> has_receipt(receipts, id)
            || has_receipt(more, id),
    decreases more.len(),
{
    if more.len() == 0 {
        assert(!has_receipt(more, id));
    } else {
        let rest = more.drop_last();
        let so_far = with_receipts(receipts, rest);
        law_receipts_are_those_of_either(receipts, rest, id);
        assert(has_receipt(more, id) <==> has_receipt(rest, id) || more.last().id@ == id) by {
            if has_receipt(more, id) {
                let i = choose|i: int| 0 <= i < more.len() && (#[trigger] more[i]).id@ == id;
                if i < rest.len() {
                    assert(rest[i].id@ == id);
                }
            }
            if has_receipt(rest, id) {
                let i = choose|i: int| 0 <= i < rest.len() && (#[trigger] rest[i]).id@ == id;
                assert(more[i].id@ == id);
            }
            if more.last().id@ == id {
                assert(more[more.len() - 1].id@ == id);
            }
        }
        let pushed = so_far.push(more.last());
        assert(has_receipt(pushed, id) <==> has_receipt(so_far, id) || more.last().id@ == id) by {
            if has_receipt(pushed, id) {
                let i = choose|i: int| 0 <= i < pushed.len() && (#[trigger] pushed[i]).id@ == id;
                if i < so_far.len() {
                    assert(so_far[i].id@ == id);
                }
            }
            if has_receipt(so_far, id) {
                let i = choose|i: int| 0 <= i < so_far.len() && (#[trigger] so_far[i]).id@ == id;
                assert(pushed[i].id@ == id);
            }
            if more.last().id@ == id {
                assert(pushed[so_far.len() as int].id@ == id);
            }
        }
    }
}

/// A gift counts what its receipts add up to, or what was reported where that is more.
pub proof fn law_a_gift_counts_its_receipts(gift: GiftDetails, receipt: GiftReceipt)
    ensures
        receipts_sum(gift.receipts@.push(receipt)) == receipts_sum(gift.receipts@)
            + receipt.quantity,
        gift.amount() >= gift.reported_quantity,
        receipts_sum(gift.receipts@) <= u64::MAX ==> gift.amount() >= receipts_sum(gift.receipts@),
        gift.amount() == gift.reported_quantity || gift.amount() == receipts_sum(gift.receipts@)
            || gift.amount() == u64::MAX,
{
    assert(gift.receipts@.push(receipt).drop_last() =~= gift.receipts@);
}

} // verus!
