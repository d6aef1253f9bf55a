//! The author of a post: an immutable pair of names built step by step.
use vstd::prelude::*;

verus! {

/// What an author is: a first name and a last name.
pub struct AuthorView {
    pub firstname: Seq<char>,
    pub lastname: Seq<char>,
}

impl AuthorView {
    /// The author as shown to readers: `"<firstname> <lastname>"`.
    pub open spec fn rendered(self) -> Seq<char> {
        self.firstname + seq![' '] + self.lastname
    }
}

/// An author's names. Each builder step consumes the value and returns a new
/// one, so a value that posts refer to never changes.
pub struct Author {
    firstname: String,
    lastname: String,
}

impl View for Author {
    type V = AuthorView;

    closed spec fn view(&self) -> AuthorView {
        AuthorView { firstname: self.firstname@, lastname: self.lastname@ }
    }
}

impl Author {
    /// An author whose names are both empty.
    pub fn new() -> (r: Author)
        ensures
            r@.firstname == Seq::<char>::empty(),
            r@.lastname == Seq::<char>::empty(),
    {
        Author { firstname: String::new(), lastname: String::new() }
    }

    /// The same author with the first name replaced.
    pub fn add_firstname(self, firstname: &str) -> (r: Author)
        ensures
            r@.firstname == firstname@,
            r@.lastname == self@.lastname,
    {
        Author { firstname: String::from_str(firstname), lastname: self.lastname }
    }

    /// The same author with the last name replaced.
    pub fn add_lastname(self, lastname: &str) -> (r: Author)
        ensures
            r@.firstname == self@.firstname,
            r@.lastname == lastname@,
    {
        Author { firstname: self.firstname, lastname: String::from_str(lastname) }
    }

    /// The first name, a space and the last name.
    pub fn render(&self) -> (r: String)
        ensures
            r@ == self@.rendered(),
    {
        let mut r = self.firstname.clone();
        r.append(" ");
        r.append(self.lastname.as_str());
        proof {
            reveal_strlit(" ");
        }
        assert(r@ =~= self@.rendered());
        r
    }
}

} // verus!
