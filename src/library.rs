use vstd::prelude::*;
use crate::text::{decimal, decimal_string, push_char, push_str};

verus! {

/// A book: a title and the year it came out.
#[derive(Debug)]
pub struct Book {
    title: String,
    year: u16,
}

impl Book {
    /// The title.
    pub closed spec fn title_spec(&self) -> Seq<char> {
        self.title@
    }

    /// The year the book came out.
    pub closed spec fn year_spec(&self) -> u16 {
        self.year
    }

    pub fn new(title: &str, year: u16) -> (r: Book)
        ensures
            r.title_spec() == title@,
            r.year_spec() == year,
    {
        Book { title: title.to_owned(), year }
    }

    /// The title, then the year in parentheses: `Title (1985)`.
    pub fn to_string(&self) -> (r: String)
        ensures
            r@ == self.title_spec() + seq![' ', '('] + decimal(self.year_spec() as int) + seq![')'],
    {
        let mut r = String::new();
        push_str(&mut r, self.title.as_str());
        push_char(&mut r, ' ');
        push_char(&mut r, '(');
        let year = decimal_string(self.year as i64);
        push_str(&mut r, year.as_str());
        push_char(&mut r, ')');
        assert(r@ =~= self.title_spec() + seq![' ', '('] + decimal(self.year_spec() as int) + seq![')']);
        r
    }
}

/// A shelf of books, in the order they were added.
#[derive(Debug)]
pub struct Library {
    pub books: Vec<Book>,
}

impl Library {
    pub fn new() -> (r: Self)
        ensures
            r.books@ == Seq::<Book>::empty(),
    {
        Library { books: Vec::new() }
    }

    pub fn add_book(&mut self, book: Book)
        ensures
            final(self).books@ == old(self).books@.push(book),
    {
        self.books.push(book)
    }
}

} // verus!
