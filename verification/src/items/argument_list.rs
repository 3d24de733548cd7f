//! The arguments of a call: `(`, expressions separated by commas, `)`.
//! An argument may be missing after a comma, as in `f(a, )`.
use vstd::prelude::*;
use crate::items::brackets::{ClosingRoundBracket, OpeningRoundBracket};
use crate::reader::ItemLocation;

verus! {

/// An argument after a comma; `E` is the type of an argument.
pub struct OtherArgument<E> {
    pub location: ItemLocation,
    pub expression: Option<E>,
}

/// The arguments between the brackets, when there is at least one.
pub struct ArgumentListContent<E> {
    pub first_argument: E,
    pub other_arguments: Vec<OtherArgument<E>>,
}

pub struct ArgumentList<E> {
    pub location: ItemLocation,
    pub opening_bracket: OpeningRoundBracket,
    pub content: Option<ArgumentListContent<E>>,
    pub closing_bracket: ClosingRoundBracket,
}

/// The arguments of a list as values: each one, or nothing where it is missing.
pub open spec fn arguments_of<E>(content: Option<ArgumentListContent<E>>) -> Seq<Option<E>> {
    match content {
        Some(c) => seq![Some(c.first_argument)] + c.other_arguments@.map_values(|arg: OtherArgument<E>| arg.expression),
        None => Seq::empty(),
    }
}

impl<E> ArgumentList<E> {
    /// The arguments, each one or nothing where it is missing.
    pub open spec fn arguments(&self) -> Seq<Option<E>> {
        arguments_of(self.content)
    }

    /// The number of arguments, missing ones included.
    pub fn len(&self) -> (result: usize)
        requires
            self.arguments().len() <= usize::MAX,
        ensures
            result == self.arguments().len(),
    {
        match &self.content {
            Some(content) => 1 + content.other_arguments.len(),
            None => 0,
        }
    }

    /// The argument at `index`: `None` past the last one, `Some(None)` where it
    /// is missing.
    pub fn get(&self, index: usize) -> (result: Option<Option<&E>>)
        ensures
            match result {
                Some(Some(e)) => index < self.arguments().len() && self.arguments()[index as int] == Some(*e),
                Some(None) => index < self.arguments().len() && self.arguments()[index as int] is None,
                None => index >= self.arguments().len(),
            },
    {
        match &self.content {
            Some(content) => {
                if index == 0 {
                    Some(Some(&content.first_argument))
                } else if index - 1 < content.other_arguments.len() {
                    Some(content.other_arguments[index - 1].expression.as_ref())
                } else {
                    None
                }
            },
            None => None,
        }
    }

    /// Walks over the arguments in order.
    pub fn iter(&self) -> (result: ArgumentListIterator<'_, E>)
        ensures
            result.index == 0,
            result.argument_list == self,
    {
        ArgumentListIterator { index: 0, argument_list: self }
    }
}

/// A walk over the arguments of a list.
pub struct ArgumentListIterator<'a, E> {
    pub index: usize,
    pub argument_list: &'a ArgumentList<E>,
}

impl<'a, E> ArgumentListIterator<'a, E> {
    /// The next argument (`Some(None)` where it is missing), or `None` after the last one.
    pub fn next(&mut self) -> (result: Option<Option<&'a E>>)
        requires
            old(self).index < usize::MAX,
        ensures
            final(self).argument_list == old(self).argument_list,
            match result {
                Some(Some(e)) => {
                    &&& old(self).index < old(self).argument_list.arguments().len()
                    &&& old(self).argument_list.arguments()[old(self).index as int] == Some(*e)
                    &&& final(self).index == old(self).index + 1
                },
                Some(None) => {
                    &&& old(self).index < old(self).argument_list.arguments().len()
                    &&& old(self).argument_list.arguments()[old(self).index as int] is None
                    &&& final(self).index == old(self).index + 1
                },
                None => old(self).index >= old(self).argument_list.arguments().len()
                    && final(self).index == old(self).index,
            },
    {
        let result = self.argument_list.get(self.index);
        if result.is_some() {
            self.index = self.index + 1;
        }
        result
    }
}

impl<'a, E> ArgumentListIterator<'a, E> {
    /// Walks to the end, counting the arguments it passes, missing ones
    /// included: the iterator's count.
    pub fn count(&mut self) -> (result: usize)
        requires
            old(self).index <= old(self).argument_list.arguments().len(),
            old(self).argument_list.arguments().len() < usize::MAX,
        ensures
            result == old(self).argument_list.arguments().len() - old(self).index,
            final(self).index == old(self).argument_list.arguments().len(),
            final(self).argument_list == old(self).argument_list,
    {
        let ghost len = self.argument_list.arguments().len();
        let ghost start = self.index;
        let mut n: usize = 0;
        loop
            invariant
                self.argument_list == old(self).argument_list,
                len == self.argument_list.arguments().len(),
                len < usize::MAX,
                start == old(self).index,
                start <= self.index <= len,
                n == self.index - start,
            decreases len - self.index,
        {
            let step = self.next();
            match step {
                Some(_) => {
                    n = n + 1;
                },
                None => {
                    return n;
                },
            }
        }
    }
}

/// The arguments of a list are its first argument, then one per comma, a
/// comma with no expression after it standing for a missing argument; `len`
/// and the iterator's `count` both give their number.
pub proof fn law_len_counts_every_argument<E>(list: ArgumentList<E>)
    ensures
        list.arguments().len() == match list.content {
            Some(content) => 1 + content.other_arguments@.len(),
            None => 0,
        },
        list.content matches Some(content) ==> {
            &&& list.arguments()[0] == Some(content.first_argument)
            &&& forall|i: int| 0 <= i < content.other_arguments@.len() ==>
                #[trigger] list.arguments()[i + 1] == content.other_arguments@[i].expression
        },
{
}

} // verus!
