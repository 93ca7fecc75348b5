//! Holdings, the transfers between them, and the custody ledger as this
//! library reasons about it.
//!
//! The ledger itself is outside: an operation here only says which transfers
//! it needs, and is told afterwards whether the ledger carried them out.

use vstd::prelude::*;
use crate::address::Address;

verus! {

/// An account of the custody ledger.
#[derive(Clone, Copy, Debug, PartialEq, Eq, Hash)]
pub enum Holding {
    /// The units of `asset` that `owner` holds.
    Asset { owner: Address, asset: Address },
    /// The vault that keeps the units of `asset` that `seller` has listed.
    Vault { seller: Address, asset: Address },
    /// The funds that `owner` holds.
    Funds { owner: Address },
    /// The escrow that keeps the funds that `bidder` has offered for `asset`.
    Escrow { bidder: Address, asset: Address },
}

/// An instruction to the custody ledger: move `amount` from one holding to
/// another.
#[derive(Clone, Copy, Debug, PartialEq, Eq)]
pub struct Transfer {
    pub from: Holding,
    pub to: Holding,
    pub amount: u64,
}

/// A transfer as specifications see it, its amount a natural number.
pub struct Movement {
    pub from: Holding,
    pub to: Holding,
    pub amount: nat,
}

impl View for Transfer {
    type V = Movement;

    open spec fn view(&self) -> Movement {
        Movement { from: self.from, to: self.to, amount: self.amount as nat }
    }
}

impl Movement {
    /// The movement that undoes this one.
    pub open spec fn reversed(self) -> Movement {
        Movement { from: self.to, to: self.from, amount: self.amount }
    }
}

/// The movements that a list of transfers stands for.
pub open spec fn movements(transfers: Seq<Transfer>) -> Seq<Movement> {
    transfers.map_values(|t: Transfer| t@)
}

/// The sum of the amounts of `moves`.
pub open spec fn total_moved(moves: Seq<Movement>) -> nat
    decreases moves.len(),
{
    if moves.len() == 0 {
        0
    } else {
        total_moved(moves.drop_last()) + moves.last().amount
    }
}

/// Whether a ledger with the balances `book` accepts `m`: it knows both
/// holdings, and the source contains the amount.
pub open spec fn accepts(book: Map<Holding, nat>, m: Movement) -> bool {
    &&& book.dom().contains(m.from)
    &&& book.dom().contains(m.to)
    &&& book[m.from] >= m.amount
}

/// The balances after `m` has left its source and reached its destination.
pub open spec fn after_move(book: Map<Holding, nat>, m: Movement) -> Map<Holding, nat> {
    let debited = book.insert(m.from, (book[m.from] - m.amount) as nat);
    debited.insert(m.to, debited[m.to] + m.amount)
}

/// The balances after the ledger has carried out `moves` in order, as one
/// unit: `None` if it refuses any of them.
pub open spec fn carried_out(book: Map<Holding, nat>, moves: Seq<Movement>) -> Option<
    Map<Holding, nat>,
>
    decreases moves.len(),
{
    if moves.len() == 0 {
        Some(book)
    } else if !accepts(book, moves.first()) {
        None
    } else {
        carried_out(after_move(book, moves.first()), moves.drop_first())
    }
}

/// A ledger that carries out a single movement ends with the balances after
/// that movement.
pub proof fn lemma_carried_out_one(book: Map<Holding, nat>, m: Movement)
    ensures
        carried_out(book, seq![m]) == if accepts(book, m) {
            Some(after_move(book, m))
        } else {
            None
        },
{
    reveal_with_fuel(carried_out, 2);
    assert(seq![m].first() == m);
    assert(seq![m].drop_first().len() == 0);
}

/// A ledger carries out a list with one more movement at its end by carrying
/// out the list and then the movement.
pub proof fn lemma_carried_out_push(book: Map<Holding, nat>, moves: Seq<Movement>, m: Movement)
    ensures
        carried_out(book, moves.push(m)) == match carried_out(book, moves) {
            Some(reached) => if accepts(reached, m) {
                Some(after_move(reached, m))
            } else {
                None
            },
            None => None,
        },
    decreases moves.len(),
{
    if moves.len() == 0 {
        assert(moves.push(m) == seq![m]);
        lemma_carried_out_one(book, m);
    } else {
        assert(moves.push(m).first() == moves.first());
        assert(moves.push(m).drop_first() == moves.drop_first().push(m));
        if accepts(book, moves.first()) {
            lemma_carried_out_push(after_move(book, moves.first()), moves.drop_first(), m);
        }
    }
}

/// A movement between two different holdings, followed by its reverse, leaves
/// every balance as it was.
pub proof fn lemma_move_and_back(book: Map<Holding, nat>, m: Movement)
    requires
        accepts(book, m),
        m.from != m.to,
    ensures
        accepts(after_move(book, m), m.reversed()),
        after_move(after_move(book, m), m.reversed()) == book,
{
    assert(after_move(after_move(book, m), m.reversed()) =~= book);
}

/// Movements that neither leave nor reach a holding leave its balance as it
/// was.
pub proof fn lemma_untouched_holding(book: Map<Holding, nat>, moves: Seq<Movement>, h: Holding)
    requires
        forall|i: int| 0 <= i < moves.len() ==> moves[i].from != h && moves[i].to != h,
        carried_out(book, moves) is Some,
    ensures
        carried_out(book, moves)->Some_0.dom().contains(h) == book.dom().contains(h),
        carried_out(book, moves)->Some_0[h] == book[h],
    decreases moves.len(),
{
    if moves.len() > 0 {
        let before = moves.drop_last();
        assert(moves == before.push(moves.last()));
        lemma_carried_out_push(book, before, moves.last());
        lemma_untouched_holding(book, before, h);
    }
}

/// Movements that all leave one holding for others take what they come to out
/// of it.
pub proof fn lemma_drawn_from_source(book: Map<Holding, nat>, moves: Seq<Movement>, h: Holding)
    requires
        forall|i: int| 0 <= i < moves.len() ==> moves[i].from == h && moves[i].to != h,
        carried_out(book, moves) is Some,
    ensures
        carried_out(book, moves)->Some_0.dom().contains(h) == book.dom().contains(h),
        carried_out(book, moves)->Some_0[h] + total_moved(moves) == book[h],
    decreases moves.len(),
{
    if moves.len() > 0 {
        let before = moves.drop_last();
        assert(moves == before.push(moves.last()));
        lemma_carried_out_push(book, before, moves.last());
        lemma_drawn_from_source(book, before, h);
    }
}

} // verus!
