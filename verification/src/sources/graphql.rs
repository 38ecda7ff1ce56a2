//! The answers of a GraphQL server.

use vstd::prelude::*;

use crate::text::join;
use crate::text::joined;
use crate::text::signed_decimal;
use crate::text::texts;
use crate::text::trimmed_end;

verus! {

/// A place in the text of a query.
#[derive(Debug, Clone, Copy, PartialEq, Eq)]
pub struct Location {
    /// The line, the first being 1.
    pub line: i32,
    /// The column, the first being 1.
    pub column: i32,
}

/// A step on the way to a value in an answer.
#[derive(Debug, PartialEq, Eq)]
pub enum PathFragment {
    /// Into the field of an object.
    Key(String),
    /// Into the element of a list.
    Index(i32),
}

/// A step on the way to a value in an answer, as a value of the logic.
pub enum PathFragmentView {
    /// Into the field of an object.
    Key(Seq<char>),
    /// Into the element of a list.
    Index(i32),
}

impl View for PathFragment {
    type V = PathFragmentView;

    open spec fn view(&self) -> PathFragmentView {
        match self {
            PathFragment::Key(key) => PathFragmentView::Key(key@),
            PathFragment::Index(index) => PathFragmentView::Index(*index),
        }
    }
}

/// An error that the server reports.
#[derive(Debug, PartialEq, Eq)]
pub struct QueryError {
    /// What went wrong.
    pub message: String,
    /// Where in the query it went wrong.
    pub locations: Option<Vec<Location>>,
    /// Which value of the answer it concerns.
    pub path: Option<Vec<PathFragment>>,
}

/// An error that the server reports, as a value of the logic.
pub struct QueryErrorView {
    /// What went wrong.
    pub message: Seq<char>,
    /// Where in the query it went wrong.
    pub locations: Option<Seq<Location>>,
    /// Which value of the answer it concerns.
    pub path: Option<Seq<PathFragmentView>>,
}

impl View for QueryError {
    type V = QueryErrorView;

    open spec fn view(&self) -> QueryErrorView {
        QueryErrorView {
            message: self.message@,
            locations: match self.locations {
                Some(locations) => Some(locations@),
                None => None,
            },
            path: match self.path {
                Some(path) => Some(path@.map_values(|fragment: PathFragment| fragment@)),
                None => None,
            },
        }
    }
}

/// The steps of a path, a slash behind each.
pub open spec fn path_text(path: Seq<PathFragmentView>) -> Seq<char>
    decreases path.len(),
{
    if path.len() == 0 {
        Seq::empty()
    } else {
        path_text(path.drop_last()) + match path.last() {
            PathFragmentView::Key(key) => key,
            PathFragmentView::Index(index) => signed_decimal(index as int),
        } + "/"@
    }
}

/// The text that shows an error: its path without slashes at the end, the line and the column of
/// its first location, and its message. Zeros stand for a missing location.
pub open spec fn query_error_text(error: QueryErrorView) -> Seq<char> {
    let path = match error.path {
        Some(path) => trimmed_end(path_text(path), '/'),
        None => "<query>"@,
    };
    let location = match error.locations {
        Some(locations) if locations.len() > 0 => locations[0],
        _ => Location { line: 0, column: 0 },
    };
    path + ":"@ + signed_decimal(location.line as int) + ":"@ + signed_decimal(
        location.column as int,
    ) + ": "@ + error.message
}

/// Calls `to_string` on the `graphql_client::Error` with the same message, locations and path. The
/// text is made of these as `query_error_text` says.
#[verifier::external_body]
fn show_error(error: &QueryError) -> (text: String)
    ensures
        text@ == query_error_text(error@),
{
    let location = |l: &Location| graphql_client::Location { line: l.line, column: l.column };
    let fragment = |f: &PathFragment| match f {
        PathFragment::Key(key) => graphql_client::PathFragment::Key(key.clone()),
        PathFragment::Index(index) => graphql_client::PathFragment::Index(*index),
    };
    let message = error.message.clone();
    let locations = error.locations.as_ref().map(|all| all.iter().map(location).collect());
    let path = error.path.as_ref().map(|all| all.iter().map(fragment).collect());
    graphql_client::Error { message, locations, path, extensions: None }.to_string()
}

/// The texts that show some errors.
pub open spec fn error_texts(errors: Seq<QueryError>) -> Seq<Seq<char>> {
    errors.map_values(|error: QueryError| query_error_text(error@))
}

/// Why an answer is of no use.
#[derive(Debug, PartialEq, Eq)]
pub enum ResponseError {
    /// The server reports errors: their texts, one to a line.
    Errors(String),
    /// The server sends neither data nor errors.
    NoData,
}

/// An answer of the server.
#[derive(Debug)]
pub struct Response<T> {
    /// What was asked for.
    pub data: Option<T>,
    /// What went wrong.
    pub errors: Option<Vec<QueryError>>,
}

impl<T> Response<T> {
    /// What was asked for, where the server sends it and reports no error. A list of errors spoils
    /// the answer even where it is empty.
    pub open spec fn usable(self) -> Option<T> {
        match self.errors {
            Some(_) => None,
            None => self.data,
        }
    }

    /// Whether `error` is the reason why the answer is of no use.
    pub open spec fn fails_with(self, error: ResponseError) -> bool {
        match self.errors {
            Some(errors) => error matches ResponseError::Errors(text) && text@ == joined(
                error_texts(errors@),
                "\n"@,
            ),
            None => self.data is None && error is NoData,
        }
    }

    /// What was asked for, or the reason why it is not there.
    pub fn anyhow(self) -> (result: Result<T, ResponseError>)
        ensures
            match result {
                Ok(data) => self.usable() == Some(data),
                Err(error) => self.usable() is None && self.fails_with(error),
            },
    {
        match self.errors {
            Some(errors) => {
                let mut shown: Vec<String> = Vec::new();
                let mut i: usize = 0;
                while i < errors.len()
                    invariant
                        i <= errors.len(),
                        texts(shown@) =~= error_texts(errors@.take(i as int)),
                    decreases errors.len() - i,
                {
                    let ghost before = shown@;
                    let text = show_error(&errors[i]);
                    shown.push(text);
                    assert(texts(shown@) =~= texts(before).push(text@));
                    assert(errors@.take(i + 1) =~= errors@.take(i as int).push(errors@[i as int]));
                    assert(error_texts(errors@.take(i + 1)) =~= error_texts(
                        errors@.take(i as int),
                    ).push(query_error_text(errors@[i as int]@)));
                    i += 1;
                }
                assert(errors@.take(i as int) =~= errors@);
                Err(ResponseError::Errors(join(&shown, "\n")))
            },
            None => match self.data {
                Some(data) => Ok(data),
                None => Err(ResponseError::NoData),
            },
        }
    }
}

} // verus!
