use rust_basics::storing_book::{Book, Library};

#[test]
fn test_get_is_empty() {
    let mut library: Library = Library::new();
    assert_eq!(library.get_is_empty(), true);
    library.add_book(Book::new("test_book", 2020));
    assert_eq!(library.get_is_empty(), false);
}

#[test]
fn test_add_books() {
    let mut library = Library::new();
    let new_book1 = Book::new("book1", 1990);
    let expected = new_book1.clone();

    library.add_book(new_book1);

    let first_book = &library.books[0];
    assert_eq!(first_book, &expected);
}

#[test]
fn test_get_oldest_book() {
    let mut library = Library::new();
    library.add_book(Book::new("first book", 1990));
    library.add_book(Book::new("second book", 1995));
    library.add_book(Book::new("third book", 2000));
    library.add_book(Book::new("third book", 1990));

    let oldest_book = library.get_oldest_book().unwrap();
    let expected = Book::new("first book", 1990);
    assert_eq!(library.get_len(), 4);
    assert_eq!(oldest_book, &expected)
}

#[test]
fn oldest_of_none_is_none() {
    let library = Library::new();
    assert_eq!(library.get_oldest_book(), None);
    assert_eq!(library.get_len(), 0);
}

#[test]
fn book_getters_and_equality() {
    let a = Book::new("title", 1999);
    assert_eq!(a.title(), "title");
    assert_eq!(a.year(), 1999);
    assert_ne!(a, Book::new("title", 2000));
    assert_ne!(a, Book::new("other", 1999));
}
