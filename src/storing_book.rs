use vstd::prelude::*;

verus! {

/// A book: a title and the year it came out.
#[derive(Debug, Clone)]
pub struct Book {
    title: String,
    year: u16,
}

impl Book {
    /// The title.
    pub closed spec fn title_spec(&self) -> Seq<char> {
        self.title@
    }

    /// The year the book came out.
    pub closed spec fn year_spec(&self) -> u16 {
        self.year
    }

    pub fn new(title: &str, year: u16) -> (r: Book)
        ensures
            r.title_spec() == title@,
            r.year_spec() == year,
    {
        Book { title: title.to_owned(), year }
    }

    pub fn title(&self) -> (r: &str)
        ensures
            r@ == self.title_spec(),
    {
        self.title.as_str()
    }

    pub fn year(&self) -> (r: u16)
        ensures
            r == self.year_spec(),
    {
        self.year
    }
}

impl PartialEq for Book {
    fn eq(&self, other: &Book) -> (r: bool) {
        self.year == other.year && self.title == other.title
    }
}

impl vstd::std_specs::cmp::PartialEqSpecImpl for Book {
    open spec fn obeys_eq_spec() -> bool {
        true
    }

    /// Same title and same year.
    open spec fn eq_spec(&self, other: &Book) -> bool {
        self.title_spec() == other.title_spec() && self.year_spec() == other.year_spec()
    }
}

/// A shelf of books, in the order they were added.
#[derive(Debug)]
pub struct Library {
    pub books: Vec<Book>,
}

/// Whether `i` is the first position of a book of the earliest year in `s`.
pub open spec fn is_first_oldest(s: Seq<Book>, i: int) -> bool {
    &&& 0 <= i < s.len()
    &&& forall|j: int| 0 <= j < s.len() ==> s[i].year_spec() <= #[trigger] s[j].year_spec()
    &&& forall|j: int| 0 <= j < i ==> s[i].year_spec() < #[trigger] s[j].year_spec()
}

impl Library {
    pub fn new() -> (r: Self)
        ensures
            r.books@ == Seq::<Book>::empty(),
    {
        Library { books: Vec::new() }
    }

    /// The number of books.
    pub fn get_len(&self) -> (r: usize)
        ensures
            r == self.books@.len(),
    {
        self.books.len()
    }

    /// Whether there is no book.
    pub fn get_is_empty(&self) -> (r: bool)
        ensures
            r == (self.books@.len() == 0),
    {
        self.books.is_empty()
    }

    pub fn add_book(&mut self, book: Book)
        ensures
            final(self).books@ == old(self).books@.push(book),
    {
        self.books.push(book);
    }

    /// The first of the books of the earliest year, if there is any book.
    pub fn get_oldest_book(&self) -> (r: Option<&Book>)
        ensures
            r is None <==> self.books@.len() == 0,
            r matches Some(b) ==> exists|i: int| is_first_oldest(self.books@, i) && self.books@[i] == *b,
    {
        if self.books.len() == 0 {
            return None;
        }
        let mut best: usize = 0;
        let mut i: usize = 1;
        while i < self.books.len()
            invariant
                1 <= i <= self.books@.len(),
                best < i,
                forall|j: int| 0 <= j < i ==> self.books@[best as int].year_spec() <= #[trigger] self.books@[j].year_spec(),
                forall|j: int| 0 <= j < best ==> self.books@[best as int].year_spec() < #[trigger] self.books@[j].year_spec(),
            decreases self.books.len() - i,
        {
            if self.books[i].year < self.books[best].year {
                best = i;
            }
            i = i + 1;
        }
        assert(is_first_oldest(self.books@, best as int));
        Some(&self.books[best])
    }
}

} // verus!
