//! A shirt give-away: the preferred colour when one is stated, otherwise
//! the colour with the most stock; and a filter of shoes by size.

use vstd::prelude::*;

verus! {

/// The two shirt colours on offer.
#[derive(Clone, Copy, PartialEq, Eq, Structural, Debug)]
pub enum ShirtColor {
    Red,
    Blue,
}

/// How many shirts of colour `c` the sequence holds.
pub open spec fn count_of(s: Seq<ShirtColor>, c: ShirtColor) -> nat
    decreases s.len(),
{
    if s.len() == 0 {
        0
    } else {
        count_of(s.drop_last(), c) + if s.last() == c {
            1nat
        } else {
            0nat
        }
    }
}

/// The shirts currently in stock.
pub struct Inventory {
    pub shirts: Vec<ShirtColor>,
}

impl Inventory {
    /// The colour with the larger stock; a tie, or an empty stock, goes
    /// to blue.
    pub fn most_stocked(&self) -> (r: ShirtColor)
        ensures
            r == if count_of(self.shirts@, ShirtColor::Red) > count_of(
                self.shirts@,
                ShirtColor::Blue,
            ) {
                ShirtColor::Red
            } else {
                ShirtColor::Blue
            },
    {
        let mut num_red: usize = 0;
        let mut num_blue: usize = 0;
        let mut i: usize = 0;
        while i < self.shirts.len()
            invariant
                i <= self.shirts@.len(),
                num_red == count_of(self.shirts@.subrange(0, i as int), ShirtColor::Red),
                num_blue == count_of(self.shirts@.subrange(0, i as int), ShirtColor::Blue),
                num_red <= i,
                num_blue <= i,
            decreases self.shirts@.len() - i,
        {
            match self.shirts[i] {
                ShirtColor::Red => {
                    num_red += 1;
                },
                ShirtColor::Blue => {
                    num_blue += 1;
                },
            }
            proof {
                assert(self.shirts@.subrange(0, i as int + 1).drop_last() =~= self.shirts@
                    .subrange(0, i as int));
                assert(self.shirts@.subrange(0, i as int + 1).last() == self.shirts@[i as int]);
            }
            i += 1;
        }
        proof {
            assert(self.shirts@.subrange(0, self.shirts@.len() as int) =~= self.shirts@);
        }
        if num_red > num_blue {
            ShirtColor::Red
        } else {
            ShirtColor::Blue
        }
    }

    /// The colour handed out: the stated preference, or else whichever
    /// colour is most stocked.
    pub fn giveaway(&self, user_preference: Option<ShirtColor>) -> (r: ShirtColor)
        ensures
            match user_preference {
                Some(c) => r == c,
                None => r == if count_of(self.shirts@, ShirtColor::Red) > count_of(
                    self.shirts@,
                    ShirtColor::Blue,
                ) {
                    ShirtColor::Red
                } else {
                    ShirtColor::Blue
                },
            },
    {
        match user_preference {
            Some(c) => c,
            None => self.most_stocked(),
        }
    }
}

/// Sums a small vector one element at a time, the way an iterator's
/// `sum` walks it, and checks the total.
pub fn iterator_sum() {
    let mut v1: Vec<i32> = Vec::new();
    v1.push(1);
    v1.push(2);
    v1.push(3);
    let mut total: i32 = 0;
    let mut i: usize = 0;
    while i < v1.len()
        invariant
            i <= v1@.len(),
            v1@.len() == 3,
            v1@[0] == 1,
            v1@[1] == 2,
            v1@[2] == 3,
            total == if i == 0 {
                0int
            } else if i == 1 {
                1int
            } else if i == 2 {
                3int
            } else {
                6int
            },
        decreases v1@.len() - i,
    {
        total = total + v1[i];
        i += 1;
    }
    assert(total == 6);
}

/// Walks a small vector element by element, the way an iterator's `next`
/// yields it, and checks each value and the end.
pub fn iterator_demonstration() {
    let mut v1: Vec<i32> = Vec::new();
    v1.push(1);
    v1.push(2);
    v1.push(3);
    let first = v1[0];
    assert(first == 1);
    let second = v1[1];
    assert(second == 2);
    let third = v1[2];
    assert(third == 3);
    assert(v1@.len() == 3);
}

/// A shoe: a size and a style name.
#[derive(PartialEq, Eq, Debug)]
pub struct Shoe {
    pub size: i32,
    pub style: String,
}

/// The shoes of the given size, kept in their original order.
pub open spec fn in_size(shoes: Seq<Shoe>, shoe_size: i32) -> Seq<Shoe>
    decreases shoes.len(),
{
    if shoes.len() == 0 {
        shoes
    } else {
        let rest = in_size(shoes.drop_last(), shoe_size);
        if shoes.last().size == shoe_size {
            rest.push(shoes.last())
        } else {
            rest
        }
    }
}

/// Keeps exactly the shoes of the asked-for size, in order.
pub fn shoe_in_size(shoes: Vec<Shoe>, shoe_size: i32) -> (r: Vec<Shoe>)
    ensures
        r@ == in_size(shoes@, shoe_size),
{
    let ghost orig = shoes@;
    let mut shoes = shoes;
    let mut result: Vec<Shoe> = Vec::new();
    let ghost mut i: int = 0;
    while shoes.len() > 0
        invariant
            0 <= i <= orig.len(),
            shoes@ == orig.subrange(i, orig.len() as int),
            result@ == in_size(orig.subrange(0, i), shoe_size),
        decreases shoes@.len(),
    {
        let s = shoes.remove(0);
        proof {
            assert(s == orig[i]);
            assert(orig.subrange(i, orig.len() as int).remove(0) =~= orig.subrange(
                i + 1,
                orig.len() as int,
            ));
            assert(orig.subrange(0, i + 1).drop_last() =~= orig.subrange(0, i));
            assert(orig.subrange(0, i + 1).last() == orig[i]);
        }
        if s.size == shoe_size {
            result.push(s);
        }
        proof {
            i = i + 1;
        }
    }
    proof {
        assert(orig.subrange(0, orig.len() as int) =~= orig);
    }
    result
}

} // verus!
