use vstd::prelude::*;

verus! {

/// Relies on the standard library's `std::io::Error` only as a value that is
/// carried through, never looked into.
#[verifier::external_type_specification]
#[verifier::external_body]
pub struct ExIoError(std::io::Error);

/// Why no user name could be read.
#[derive(Debug)]
pub enum ReadUsernameError {
    IoError(std::io::Error),
    EmptyUsername(String),
}

impl From<std::io::Error> for ReadUsernameError {
    fn from(err: std::io::Error) -> (r: ReadUsernameError) {
        ReadUsernameError::IoError(err)
    }
}

impl vstd::std_specs::convert::FromSpecImpl<std::io::Error> for ReadUsernameError {
    open spec fn obeys_from_spec() -> bool {
        true
    }

    open spec fn from_spec(err: std::io::Error) -> ReadUsernameError {
        ReadUsernameError::IoError(err)
    }
}

/// The user name in the file at `path`, given what reading the file gave: the
/// read error where it failed, an error naming the path where the file is
/// empty, and otherwise the whole content.
pub fn username_from(path: &str, read: Result<String, std::io::Error>) -> (r: Result<String, ReadUsernameError>)
    ensures
        match read {
            Err(e) => (r matches Err(ReadUsernameError::IoError(e2)) && e2 == e),
            Ok(s) => if s@.len() == 0 {
                (r matches Err(ReadUsernameError::EmptyUsername(p)) && p@ == path@)
            } else {
                r == Ok::<String, ReadUsernameError>(s)
            },
        },
{
    match read {
        Err(err) => Err(ReadUsernameError::from(err)),
        Ok(username) => {
            if username.as_str().is_empty() {
                Err(ReadUsernameError::EmptyUsername(path.to_owned()))
            } else {
                Ok(username)
            }
        },
    }
}

} // verus!
