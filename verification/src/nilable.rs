//! A Ruby argument that may be `nil`.
use vstd::prelude::*;

verus! {

/// A value converted from Ruby, or Ruby's `nil`.
#[derive(Debug, Clone, Copy)]
pub enum Nilable<T> {
    Value(T),
    Nil,
}

impl<T> Nilable<T> {
    /// The value, or `None` for `nil`.
    pub fn into_option(self) -> (o: Option<T>)
        ensures
            match self {
                Nilable::Value(v) => o == Some(v),
                Nilable::Nil => o is None,
            },
    {
        match self {
            Nilable::Value(value) => Some(value),
            Nilable::Nil => None,
        }
    }

    /// Whether there is a value.
    pub fn is_some(&self) -> (b: bool)
        ensures
            b == (self is Value),
    {
        match self {
            Nilable::Value(_) => true,
            Nilable::Nil => false,
        }
    }

    /// Whether it is `nil`.
    pub fn is_none(&self) -> (b: bool)
        ensures
            b == (self is Nil),
    {
        match self {
            Nilable::Value(_) => false,
            Nilable::Nil => true,
        }
    }

    /// Whether it is `nil`.
    pub fn is_nil(&self) -> (b: bool)
        ensures
            b == (self is Nil),
    {
        self.is_none()
    }
}

} // verus!
