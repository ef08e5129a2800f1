//! A small catalogue of record types, with a builder for books.

use vstd::prelude::*;

verus! {

/// A person: a name and an age.
#[derive(Debug)]
pub struct Person {
    pub name: String,
    pub age: u8,
}

/// A book: title, page count, publication date and availability.
#[derive(Debug)]
pub struct Book {
    pub title: String,
    pub pages: u32,
    pub publication_date: u64,
    pub is_available: bool,
}

impl Book {
    /// Begin building a book from the required title and availability; pages
    /// and publication date default to zero.
    pub fn new(title: String, is_available: bool) -> (r: BookBuilder)
        ensures
            r.title == title,
            r.is_available == is_available,
            r.pages is None,
            r.publication_date is None,
    {
        BookBuilder { title, is_available, pages: None, publication_date: None }
    }
}

/// Builds a [`Book`], defaulting the page count and publication date to zero
/// where they are not set.
#[derive(Debug)]
pub struct BookBuilder {
    pub title: String,
    pub pages: Option<u32>,
    pub publication_date: Option<u64>,
    pub is_available: bool,
}

impl BookBuilder {
    /// Replace the title.
    pub fn title(self, title: String) -> (r: Self)
        ensures
            r.title == title,
            r.pages == self.pages,
            r.publication_date == self.publication_date,
            r.is_available == self.is_available,
    {
        BookBuilder { title, ..self }
    }

    /// Set the page count.
    pub fn pages(self, pages: u32) -> (r: Self)
        ensures
            r.title == self.title,
            r.pages == Some(pages),
            r.publication_date == self.publication_date,
            r.is_available == self.is_available,
    {
        BookBuilder { pages: Some(pages), ..self }
    }

    /// Set the publication date.
    pub fn publication_date(self, publication_date: u64) -> (r: Self)
        ensures
            r.title == self.title,
            r.pages == self.pages,
            r.publication_date == Some(publication_date),
            r.is_available == self.is_available,
    {
        BookBuilder { publication_date: Some(publication_date), ..self }
    }

    /// Replace the availability.
    pub fn is_available(self, is_available: bool) -> (r: Self)
        ensures
            r.title == self.title,
            r.pages == self.pages,
            r.publication_date == self.publication_date,
            r.is_available == is_available,
    {
        BookBuilder { is_available, ..self }
    }

    /// Finish the book, filling in zero pages and a zero publication date
    /// where none was set.
    pub fn build(self) -> (r: Book)
        ensures
            r.title == self.title,
            r.pages == (if self.pages is Some { self.pages->0 } else { 0u32 }),
            r.publication_date == (if self.publication_date is Some { self.publication_date->0 } else { 0u64 }),
            r.is_available == self.is_available,
    {
        Book {
            title: self.title,
            pages: match self.pages {
                Some(p) => p,
                None => 0,
            },
            publication_date: match self.publication_date {
                Some(d) => d,
                None => 0,
            },
            is_available: self.is_available,
        }
    }
}

/// A user: a name and an age.
#[derive(Debug)]
pub struct User {
    pub name: String,
    pub age: u8,
}

} // verus!
