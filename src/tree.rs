//! A node with a value and up to two owned subtrees.
use vstd::prelude::*;

verus! {

/// Which child of a node.
#[derive(Clone, Copy, Debug, PartialEq, Eq, Structural)]
pub enum Position {
    Left,
    Right,
}

/// A node owning its value and at most a left and a right subtree. The shape
/// is fixed when the tree is built; only the values change afterwards.
#[derive(Debug)]
pub struct BinaryTree<T> {
    pub value: T,
    pub left: Option<Box<BinaryTree<T>>>,
    pub right: Option<Box<BinaryTree<T>>>,
}

impl<T> BinaryTree<T> {
    /// The subtree on the given side, if there is one.
    pub open spec fn child(self, side: Position) -> Option<BinaryTree<T>> {
        let c = match side {
            Position::Left => self.left,
            Position::Right => self.right,
        };
        match c {
            Some(b) => Some(*b),
            None => None,
        }
    }

    pub fn new(value: T, left: Option<BinaryTree<T>>, right: Option<BinaryTree<T>>) -> (r: Self)
        ensures
            r.value == value,
            r.child(Position::Left) == left,
            r.child(Position::Right) == right,
    {
        let left = match left {
            Some(node) => Some(Box::new(node)),
            None => None,
        };
        let right = match right {
            Some(node) => Some(Box::new(node)),
            None => None,
        };
        BinaryTree { value, left, right }
    }

    pub fn left(&self) -> (r: Option<&BinaryTree<T>>)
        ensures
            match r {
                Some(c) => self.child(Position::Left) == Some(*c),
                None => self.child(Position::Left) is None,
            },
    {
        match &self.left {
            Some(b) => Some(&**b),
            None => None,
        }
    }

    pub fn right(&self) -> (r: Option<&BinaryTree<T>>)
        ensures
            match r {
                Some(c) => self.child(Position::Right) == Some(*c),
                None => self.child(Position::Right) is None,
            },
    {
        match &self.right {
            Some(b) => Some(&**b),
            None => None,
        }
    }

    pub fn left_mut(&mut self) -> (r: Option<&mut BinaryTree<T>>)
        ensures
            old(self).left is None ==> r is None && *final(self) == *old(self),
            old(self).left is Some ==> {
                &&& r is Some
                &&& *r.unwrap() == *old(self).left.unwrap()
                &&& final(self).value == old(self).value
                &&& final(self).right == old(self).right
                &&& final(self).left == Some(Box::new(*final(r.unwrap())))
            },
    {
        match &mut self.left {
            Some(b) => Some(&mut **b),
            None => None,
        }
    }

    pub fn right_mut(&mut self) -> (r: Option<&mut BinaryTree<T>>)
        ensures
            old(self).right is None ==> r is None && *final(self) == *old(self),
            old(self).right is Some ==> {
                &&& r is Some
                &&& *r.unwrap() == *old(self).right.unwrap()
                &&& final(self).value == old(self).value
                &&& final(self).left == old(self).left
                &&& final(self).right == Some(Box::new(*final(r.unwrap())))
            },
    {
        match &mut self.right {
            Some(b) => Some(&mut **b),
            None => None,
        }
    }
}

} // verus!
