use vstd::prelude::*;

verus! {

/// The selection in a scrollable list: the selected position, the number of items the list was
/// last drawn with, and whether moving past an end wraps round. A list that was never drawn
/// has no items.
#[derive(Clone, Copy, Debug, PartialEq, Eq, Structural)]
pub struct Selection {
    pub selected: Option<usize>,
    pub len: usize,
    pub wrap: bool,
}

impl Selection {
    /// The position after moving one item down: the first item from no selection; past the last
    /// item, the first where the list wraps, else the last again. A list without items keeps
    /// its selection.
    pub open spec fn next_spec(self) -> Option<usize> {
        if self.len == 0 {
            self.selected
        } else {
            match self.selected {
                None => Some(0),
                Some(i) => if i >= self.len - 1 {
                    if self.wrap {
                        Some(0)
                    } else {
                        Some(i)
                    }
                } else {
                    Some((i + 1) as usize)
                },
            }
        }
    }

    /// The position after moving one item up: the last item from no selection; before the
    /// first item, the last where the list wraps, else the first again.
    pub open spec fn previous_spec(self) -> Option<usize> {
        if self.len == 0 {
            self.selected
        } else {
            match self.selected {
                None => Some((self.len - 1) as usize),
                Some(i) => if i == 0 {
                    if self.wrap {
                        Some((self.len - 1) as usize)
                    } else {
                        Some(0)
                    }
                } else {
                    Some((i - 1) as usize)
                },
            }
        }
    }

    /// A list that was never drawn: no selection, no items, wrapping.
    pub fn new() -> (r: Selection)
        ensures
            r == (Selection { selected: None, len: 0, wrap: true }),
    {
        Selection { selected: None, len: 0, wrap: true }
    }

    /// Moves one item down.
    pub fn next(&mut self)
        ensures
            *final(self) == (Selection { selected: old(self).next_spec(), ..*old(self) }),
    {
        if self.len == 0 {
            return ;
        }
        self.selected = match self.selected {
            None => Some(0),
            Some(i) => if i >= self.len - 1 {
                if self.wrap {
                    Some(0)
                } else {
                    Some(i)
                }
            } else {
                Some(i + 1)
            },
        };
    }

    /// Moves one item up.
    pub fn previous(&mut self)
        ensures
            *final(self) == (Selection { selected: old(self).previous_spec(), ..*old(self) }),
    {
        if self.len == 0 {
            return ;
        }
        self.selected = match self.selected {
            None => Some(self.len - 1),
            Some(i) => if i == 0 {
                if self.wrap {
                    Some(self.len - 1)
                } else {
                    Some(0)
                }
            } else {
                Some(i - 1)
            },
        };
    }

    /// Selects a position, or nothing.
    pub fn select(&mut self, index: Option<usize>)
        ensures
            *final(self) == (Selection { selected: index, ..*old(self) }),
    {
        self.selected = index;
    }

    /// Records the number of items the list is drawn with and whether it wraps.
    pub fn set_items(&mut self, len: usize, wrap: bool)
        ensures
            *final(self) == (Selection { selected: old(self).selected, len, wrap }),
    {
        self.len = len;
        self.wrap = wrap;
    }
}

} // verus!
