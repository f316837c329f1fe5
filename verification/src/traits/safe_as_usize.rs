use vstd::prelude::*;

verus! {

/// Integers that can serve as a count of elements.
pub trait SafeAsUsize: Sized {
    /// The integer that this value stands for.
    spec fn count(self) -> int;

    /// The count as a `usize`, or `None` where it is negative or too large
    /// for a `usize`: a count is never wrapped.
    fn as_usize(self) -> (converted: Option<usize>)
        ensures
            converted == if 0 <= self.count() <= usize::MAX {
                Some(self.count() as usize)
            } else {
                None::<usize>
            },
    ;
}

impl SafeAsUsize for usize {
    open spec fn count(self) -> int {
        self as int
    }

    fn as_usize(self) -> (converted: Option<usize>) {
        Some(self)
    }
}

impl SafeAsUsize for isize {
    open spec fn count(self) -> int {
        self as int
    }

    fn as_usize(self) -> (converted: Option<usize>) {
        if self < 0 {
            None
        } else {
            Some(self as usize)
        }
    }
}

impl SafeAsUsize for u8 {
    open spec fn count(self) -> int {
        self as int
    }

    fn as_usize(self) -> (converted: Option<usize>) {
        Some(self as usize)
    }
}

impl SafeAsUsize for i8 {
    open spec fn count(self) -> int {
        self as int
    }

    fn as_usize(self) -> (converted: Option<usize>) {
        if self < 0 {
            None
        } else {
            Some(self as usize)
        }
    }
}

impl SafeAsUsize for u16 {
    open spec fn count(self) -> int {
        self as int
    }

    fn as_usize(self) -> (converted: Option<usize>) {
        Some(self as usize)
    }
}

impl SafeAsUsize for i16 {
    open spec fn count(self) -> int {
        self as int
    }

    fn as_usize(self) -> (converted: Option<usize>) {
        if self < 0 {
            None
        } else {
            Some(self as usize)
        }
    }
}

impl SafeAsUsize for u32 {
    open spec fn count(self) -> int {
        self as int
    }

    fn as_usize(self) -> (converted: Option<usize>) {
        Some(self as usize)
    }
}

impl SafeAsUsize for i32 {
    open spec fn count(self) -> int {
        self as int
    }

    fn as_usize(self) -> (converted: Option<usize>) {
        if self < 0 {
            None
        } else {
            Some(self as usize)
        }
    }
}

impl SafeAsUsize for u64 {
    open spec fn count(self) -> int {
        self as int
    }

    fn as_usize(self) -> (converted: Option<usize>) {
        if self <= usize::MAX as u64 {
            Some(self as usize)
        } else {
            None
        }
    }
}

impl SafeAsUsize for i64 {
    open spec fn count(self) -> int {
        self as int
    }

    fn as_usize(self) -> (converted: Option<usize>) {
        if self < 0 {
            None
        } else if self as u64 <= usize::MAX as u64 {
            Some(self as usize)
        } else {
            None
        }
    }
}

} // verus!
