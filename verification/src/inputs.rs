//! The rules by which the runners generate and mutate inputs. The random
//! draws themselves are made by the caller; these functions decide what the
//! draws mean.

use vstd::prelude::*;

verus! {

/// A mutation never grows the items past this length.
pub const MAX_MUTATED_LEN: usize = 12;

/// The number of items to generate from a random byte: 0 to 8.
pub fn items_len_from_draw(draw: u8) -> (len: usize)
    ensures
        len == draw % 9,
        len <= 8,
{
    (draw % 9) as usize
}

/// A change to a list of items.
#[derive(Debug, Clone, Copy, PartialEq, Eq)]
pub enum ItemsEdit {
    /// Flip one bit of one item.
    FlipBit,
    /// Append a fresh item.
    Push,
    /// Drop the last item.
    Pop,
    /// Leave the items as they are.
    Keep,
}

/// The change to a list of `len` items picked by `choice` (a draw from
/// `0..3`): 0 flips a bit when there is an item, 1 appends while below the
/// growth limit, and otherwise the last item goes, if there is one.
pub fn items_edit(choice: u8, len: usize) -> (e: ItemsEdit)
    ensures
        e == (if choice == 0 && len > 0 {
            ItemsEdit::FlipBit
        } else if choice == 1 && len < MAX_MUTATED_LEN {
            ItemsEdit::Push
        } else if len > 0 {
            ItemsEdit::Pop
        } else {
            ItemsEdit::Keep
        }),
{
    if choice == 0 && len > 0 {
        ItemsEdit::FlipBit
    } else if choice == 1 && len < MAX_MUTATED_LEN {
        ItemsEdit::Push
    } else if len > 0 {
        ItemsEdit::Pop
    } else {
        ItemsEdit::Keep
    }
}

/// The change to a list of `len` items when a coin decides: heads appends
/// while below the growth limit, otherwise the last item goes, if there is
/// one.
pub fn resize_edit(grow: bool, len: usize) -> (e: ItemsEdit)
    ensures
        e == (if grow && len < MAX_MUTATED_LEN {
            ItemsEdit::Push
        } else if len > 0 {
            ItemsEdit::Pop
        } else {
            ItemsEdit::Keep
        }),
{
    if grow && len < MAX_MUTATED_LEN {
        ItemsEdit::Push
    } else if len > 0 {
        ItemsEdit::Pop
    } else {
        ItemsEdit::Keep
    }
}

/// A change to a drain input: its items and two range numbers.
#[derive(Debug, Clone, Copy, PartialEq, Eq)]
pub enum DrainEdit {
    /// Flip one bit of one item.
    FlipItemBit,
    /// Flip one bit of the first range number.
    FlipA,
    /// Flip one bit of the second range number.
    FlipB,
    /// Grow or shrink the items, as a coin decides.
    Resize,
}

/// The change to a drain input with `len` items picked by `choice` (a draw
/// from `0..4`): 0 flips an item bit when there is an item, 1 and 2 flip a
/// bit of the first and second number, anything else resizes.
pub fn drain_edit(choice: u8, len: usize) -> (e: DrainEdit)
    ensures
        e == (if choice == 0 && len > 0 {
            DrainEdit::FlipItemBit
        } else if choice == 1 {
            DrainEdit::FlipA
        } else if choice == 2 {
            DrainEdit::FlipB
        } else {
            DrainEdit::Resize
        }),
{
    if choice == 0 && len > 0 {
        DrainEdit::FlipItemBit
    } else if choice == 1 {
        DrainEdit::FlipA
    } else if choice == 2 {
        DrainEdit::FlipB
    } else {
        DrainEdit::Resize
    }
}

/// Flips bit `bit` of the item at `index`.
pub fn flip_item_bit(items: &mut Vec<i32>, index: usize, bit: u32)
    requires
        index < old(items)@.len(),
        bit < 32,
    ensures
        final(items)@ == old(items)@.update(index as int, old(items)@[index as int] ^ (1i32 << bit)),
{
    let flipped = items[index] ^ (1i32 << bit);
    items.set(index, flipped);
}

/// `x` with bit `bit` flipped.
pub fn flip_bit(x: usize, bit: u32) -> (r: usize)
    requires
        bit < usize::BITS,
    ensures
        r == x ^ (1usize << bit),
{
    x ^ (1usize << bit)
}

} // verus!
