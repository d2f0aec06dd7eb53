//! An owned, singly linked sequence.
//!
//! Expression trees hold their children in this type rather than in `Vec`, so
//! that a tree is a plain algebraic value: two trees are equal exactly when
//! they have the same shape and leaves, and specifications can build trees.

use vstd::prelude::*;

verus! {

#[derive(Debug, PartialEq)]
pub enum List<T> {
    Nil,
    Cons(Box<Node<T>>),
}

/// One element and what follows it.
#[derive(Debug, PartialEq)]
pub struct Node<T> {
    pub head: T,
    pub tail: List<T>,
}

impl<T> List<T> {
    pub open spec fn spec_cons(head: T, tail: List<T>) -> List<T> {
        List::Cons(Box::new(Node { head, tail }))
    }

    /// The elements, first to last.
    pub open spec fn view(self) -> Seq<T>
        decreases self,
    {
        match self {
            List::Nil => Seq::empty(),
            List::Cons(node) => seq![node.head] + node.tail.view(),
        }
    }

    pub open spec fn spec_len(self) -> nat {
        self.view().len()
    }

    pub open spec fn spec_index(self, i: int) -> T
        recommends
            0 <= i < self.view().len(),
    {
        self.view()[i]
    }

    /// The list with `last` added behind its last element.
    pub open spec fn spec_push(self, last: T) -> List<T>
        decreases self,
    {
        match self {
            List::Nil => List::spec_cons(last, List::Nil),
            List::Cons(node) => List::spec_cons(node.head, node.tail.spec_push(last)),
        }
    }

    /// `self` followed by `other`.
    pub open spec fn spec_concat(self, other: List<T>) -> List<T>
        decreases self,
    {
        match self {
            List::Nil => other,
            List::Cons(node) => List::spec_cons(node.head, node.tail.spec_concat(other)),
        }
    }

    /// The list that holds the elements of `s` in order.
    pub open spec fn from_seq(s: Seq<T>) -> List<T>
        decreases s.len(),
    {
        if s.len() == 0 {
            List::Nil
        } else {
            List::spec_cons(s[0], List::from_seq(s.drop_first()))
        }
    }

    pub proof fn lemma_view_from_seq(s: Seq<T>)
        ensures
            List::from_seq(s).view() == s,
        decreases s.len(),
    {
        if s.len() > 0 {
            List::lemma_view_from_seq(s.drop_first());
            assert(seq![s[0]] + s.drop_first() =~= s);
        }
    }

    pub fn new() -> (r: Self)
        ensures
            r == List::<T>::Nil,
    {
        List::Nil
    }

    pub fn cons(head: T, tail: List<T>) -> (r: Self)
        ensures
            r == List::spec_cons(head, tail),
    {
        List::Cons(Box::new(Node { head, tail }))
    }

    pub fn is_empty(&self) -> (r: bool)
        ensures
            r == (*self == List::<T>::Nil),
            r == (self.view().len() == 0),
    {
        match self {
            List::Nil => true,
            List::Cons(node) => {
                assert(self.view().len() > 0);
                false
            },
        }
    }

    pub fn len(&self) -> (r: usize)
        requires
            self.view().len() <= usize::MAX,
        ensures
            r == self.view().len(),
    {
        let mut n: usize = 0;
        let mut cur: &List<T> = self;
        loop
            invariant
                n + cur.view().len() == self.view().len(),
                self.view().len() <= usize::MAX,
            ensures
                n == self.view().len(),
            decreases cur,
        {
            match cur {
                List::Nil => {
                    break ;
                },
                List::Cons(node) => {
                    n = n + 1;
                    cur = &node.tail;
                },
            }
        }
        n
    }

    /// The element at position `i`, if there is one.
    pub fn get(&self, i: usize) -> (r: Option<&T>)
        ensures
            i < self.view().len() ==> r == Some(&self.view()[i as int]),
            i >= self.view().len() ==> r.is_none(),
    {
        let mut k: usize = i;
        let mut cur: &List<T> = self;
        loop
            invariant
                k <= i,
                (i - k) + cur.view().len() == self.view().len(),
                forall|j: int| 0 <= j < cur.view().len() ==> cur.view()[j] == self.view()[j + (i - k)],
            decreases cur,
        {
            match cur {
                List::Nil => {
                    return None;
                },
                List::Cons(node) => {
                    if k == 0 {
                        assert(cur.view()[0] == node.head);
                        return Some(&node.head);
                    }
                    assert forall|j: int| 0 <= j < node.tail.view().len() implies node.tail.view()[j]
                        == self.view()[j + (i - (k - 1))] by {
                        assert(cur.view()[j + 1] == node.tail.view()[j]);
                    }
                    k = k - 1;
                    cur = &node.tail;
                },
            }
        }
    }

    /// Adds `last` behind the last element.
    pub fn push(self, last: T) -> (r: Self)
        ensures
            r == self.spec_push(last),
        decreases self,
    {
        match self {
            List::Nil => List::cons(last, List::Nil),
            List::Cons(node) => {
                let Node { head, tail } = *node;
                let rest = tail.push(last);
                List::cons(head, rest)
            },
        }
    }

    /// `self` followed by `other`.
    pub fn concat(self, other: List<T>) -> (r: Self)
        ensures
            r == self.spec_concat(other),
        decreases self,
    {
        match self {
            List::Nil => other,
            List::Cons(node) => {
                let Node { head, tail } = *node;
                let rest = tail.concat(other);
                List::cons(head, rest)
            },
        }
    }

    /// The list that holds the elements of `v` in order.
    pub fn from_vec(v: Vec<T>) -> (r: Self)
        ensures
            r == List::from_seq(v@),
            r.view() == v@,
    {
        let mut v = v;
        let ghost all = v@;
        let mut out: List<T> = List::Nil;
        while v.len() > 0
            invariant
                v@.len() <= all.len(),
                v@ == all.subrange(0, v@.len() as int),
                out == List::from_seq(all.subrange(v@.len() as int, all.len() as int)),
            decreases v.len(),
        {
            let ghost before = v@;
            let x = v.pop().unwrap();
            proof {
                let n = before.len() as int;
                let rest = all.subrange(n - 1, all.len() as int);
                assert(rest[0] == x);
                assert(rest.drop_first() =~= all.subrange(n, all.len() as int));
                assert(v@ =~= all.subrange(0, n - 1));
            }
            out = List::cons(x, out);
        }
        proof {
            assert(all.subrange(0, all.len() as int) =~= all);
            List::lemma_view_from_seq(all);
        }
        out
    }

    /// The element at position `n`, if there is one.
    pub open spec fn spec_nth(self, n: nat) -> Option<T>
        decreases self,
    {
        match self {
            List::Nil => None,
            List::Cons(node) => if n == 0 {
                Some(node.head)
            } else {
                node.tail.spec_nth((n - 1) as nat)
            },
        }
    }

    /// The list with `x` at position `n`; the same list where it has no such
    /// position.
    pub open spec fn spec_update(self, n: nat, x: T) -> List<T>
        decreases self,
    {
        match self {
            List::Nil => List::Nil,
            List::Cons(node) => if n == 0 {
                List::spec_cons(x, node.tail)
            } else {
                List::spec_cons(node.head, node.tail.spec_update((n - 1) as nat, x))
            },
        }
    }

    /// The element at position `n`, if there is one.
    pub fn nth(&self, n: u128) -> (r: Option<&T>)
        ensures
            match self.spec_nth(n as nat) {
                Some(x) => r == Some(&x),
                None => r.is_none(),
            },
        decreases *self,
    {
        match self {
            List::Nil => None,
            List::Cons(node) => if n == 0 {
                Some(&node.head)
            } else {
                node.tail.nth(n - 1)
            },
        }
    }

    /// Puts `x` at position `n`, where the list has such a position.
    pub fn update(self, n: u128, x: T) -> (r: Self)
        ensures
            r == self.spec_update(n as nat, x),
        decreases self,
    {
        match self {
            List::Nil => List::Nil,
            List::Cons(node) => {
                let Node { head, tail } = *node;
                if n == 0 {
                    List::cons(x, tail)
                } else {
                    List::cons(head, tail.update(n - 1, x))
                }
            },
        }
    }
}

} // verus!
