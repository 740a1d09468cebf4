//! The block elements of which a Slack message is composed.

use vstd::prelude::*;

verus! {

/// A block element of a Slack message.
#[derive(Debug, PartialEq, Eq)]
pub enum Block {
    /// A section of plain text.
    Section {
        /// The text of the section.
        text: String,
    },
    /// A dividing line.
    Divider,
}

/// The mathematical value of a [`Block`].
pub enum BlockView {
    Section { text: Seq<char> },
    Divider,
}

impl View for Block {
    type V = BlockView;

    open spec fn view(&self) -> BlockView {
        match self {
            Block::Section { text } => BlockView::Section { text: text@ },
            Block::Divider => BlockView::Divider,
        }
    }
}

impl Clone for Block {
    fn clone(&self) -> (r: Self)
        ensures
            r@ == self@,
    {
        match self {
            Block::Section { text } => Block::Section { text: text.clone() },
            Block::Divider => Block::Divider,
        }
    }
}

} // verus!
