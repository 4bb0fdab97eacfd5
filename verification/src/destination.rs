//! Where the rows of an ingest are stored: the name of the file, derived from
//! the three-part name of the table, and its validation as a storage location.

use datafusion::datasource::listing::ListingTableUrl;
use datafusion::error::DataFusionError;
use vstd::prelude::*;

use crate::error::{ErrorKind, Failure, IngestError};

verus! {

/// The three-part logical name of the table an ingest writes.
#[derive(Debug)]
pub struct TableIdent {
    pub catalog: String,
    pub namespace: String,
    pub table: String,
}

/// The character that separates the parts of a path.
pub open spec fn separator() -> Seq<char> {
    seq!['/']
}

/// The extension of the file format, with its dot.
pub open spec fn extension_suffix() -> Seq<char> {
    seq!['.', 'p', 'a', 'r', 'q', 'u', 'e', 't']
}

/// The path `<catalog>/<namespace>/<table>.parquet`.
pub open spec fn path_of(catalog: Seq<char>, namespace: Seq<char>, table: Seq<char>) -> Seq<char> {
    catalog + separator() + namespace + separator() + table + extension_suffix()
}

/// The absolute location that stands for `path`: the path behind a leading separator.
pub open spec fn location_of(path: Seq<char>) -> Seq<char> {
    separator() + path
}

/// The message of a destination that is no well-formed location.
pub open spec fn invalid_url_message(path: Seq<char>, cause: Seq<char>) -> Seq<char> {
    "invalid table url "@ + path + ": "@ + cause
}

/// Whether `part` can be one segment of a path: it holds no separator.
pub open spec fn is_path_safe(part: Seq<char>) -> bool {
    !part.contains('/')
}

impl TableIdent {
    /// The path under which the table is stored.
    pub open spec fn path(&self) -> Seq<char> {
        path_of(self.catalog@, self.namespace@, self.table@)
    }
}

/// A validated destination: the path of the file and the location that the
/// storage layer made of it.
#[derive(Debug)]
pub struct Destination {
    pub path: String,
    pub url: ListingTableUrl,
}

/// `ListingTableUrl` of datafusion: a parsed location. It is carried through
/// as it came; nothing is known of what it holds.
#[verifier::external_type_specification]
#[verifier::external_body]
pub struct ExListingTableUrl(ListingTableUrl);

/// `DataFusionError` of datafusion: why a location did not parse. Only its
/// text is used.
#[verifier::external_type_specification]
#[verifier::external_body]
pub struct ExDataFusionError(DataFusionError);

/// Calls `ListingTableUrl::parse` on `location`. Nothing is claimed of the
/// outcome: the parser consults the file system to tell a directory from a
/// file, so one location may be judged differently at different times.
#[verifier::external_body]
fn parse_location(location: &str) -> (parsed: Result<ListingTableUrl, DataFusionError>) {
    ListingTableUrl::parse(location)
}

/// Composes the path of the file that holds `table` of `namespace` in `catalog`.
pub fn destination_path(catalog: &str, namespace: &str, table: &str) -> (path: String)
    ensures
        path@ == path_of(catalog@, namespace@, table@),
{
    proof {
        reveal_strlit("/");
        reveal_strlit(".parquet");
    }
    let mut path = catalog.to_owned();
    path.append("/");
    path.append(namespace);
    path.append("/");
    path.append(table);
    path.append(".parquet");
    path
}

/// The absolute location that is handed to the storage layer for `path`.
pub fn absolute_location(path: &str) -> (location: String)
    ensures
        location@ == location_of(path@),
{
    proof {
        reveal_strlit("/");
    }
    let mut location = "/".to_owned();
    location.append(path);
    location
}

/// Decides what a destination is, given what the storage layer made of its
/// location: the validated destination, or an internal failure that names the
/// path and the cause.
pub fn resolve_parsed(path: String, parsed: Result<ListingTableUrl, String>) -> (resolved: Result<
    Destination,
    IngestError,
>)
    ensures
        match (parsed, resolved) {
            (Ok(url), Ok(destination)) => destination.path@ == path@ && destination.url == url,
            (Err(cause), Err(e)) => e@ == (Failure {
                kind: ErrorKind::Internal,
                message: invalid_url_message(path@, cause@),
            }),
            _ => false,
        },
{
    match parsed {
        Ok(url) => Ok(Destination { path, url }),
        Err(cause) => {
            let mut message = "invalid table url ".to_owned();
            message.append(path.as_str());
            message.append(": ");
            message.append(cause.as_str());
            Err(IngestError::new(ErrorKind::Internal, message))
        },
    }
}

/// Resolves the destination of `ident`: composes its path and has the storage
/// layer parse the absolute location of that path. Whether the location
/// parses is for the storage layer to say. A destination that comes back
/// carries exactly that path; a location that does not parse is an internal
/// failure whose message names the path, then the cause.
pub fn resolve(ident: &TableIdent) -> (resolved: Result<Destination, IngestError>)
    ensures
        match resolved {
            Ok(destination) => destination.path@ == ident.path(),
            Err(e) => e.kind == ErrorKind::Internal && exists|cause: Seq<char>|
                e.message@ == invalid_url_message(ident.path(), cause),
        },
{
    let path = destination_path(
        ident.catalog.as_str(),
        ident.namespace.as_str(),
        ident.table.as_str(),
    );
    let location = absolute_location(path.as_str());
    let parsed = match parse_location(location.as_str()) {
        Ok(url) => Ok(url),
        Err(error) => Err(error.to_string()),
    };
    let ghost cause = if parsed is Err {
        parsed->Err_0@
    } else {
        Seq::empty()
    };
    let resolved = resolve_parsed(path, parsed);
    assert(resolved is Err ==> resolved->Err_0.message@ == invalid_url_message(
        ident.path(),
        cause,
    ));
    resolved
}

/// Two sequences that agree once a separator and a tail are put behind each
/// of them are the same, and so are the tails, if neither holds a separator.
proof fn lemma_first_segment(head1: Seq<char>, tail1: Seq<char>, head2: Seq<char>, tail2: Seq<char>)
    requires
        is_path_safe(head1),
        is_path_safe(head2),
        head1 + separator() + tail1 == head2 + separator() + tail2,
    ensures
        head1 == head2,
        tail1 == tail2,
{
    let joined1 = head1 + separator() + tail1;
    let joined2 = head2 + separator() + tail2;
    let n1 = head1.len() as int;
    let n2 = head2.len() as int;
    if n1 < n2 {
        assert(joined2[n1] == head2[n1]);
    }
    if n2 < n1 {
        assert(joined1[n2] == head1[n2]);
    }
    assert(head1 =~= head2) by {
        assert forall|i: int| 0 <= i < n1 implies head1[i] == head2[i] by {
            assert(joined2[i] == head2[i]);
        }
    }
    assert(tail1 =~= tail2) by {
        assert(tail2.len() == joined2.len() - n2 - 1);
        assert forall|i: int| 0 <= i < tail1.len() implies tail1[i] == tail2[i] by {
            assert(joined2[n2 + 1 + i] == tail2[i]);
        }
    }
}

/// A path names one table only: two names whose catalog and namespace hold no
/// separator and that are stored under the same path are the same name.
pub proof fn lemma_path_names_one_table(
    catalog1: Seq<char>,
    namespace1: Seq<char>,
    table1: Seq<char>,
    catalog2: Seq<char>,
    namespace2: Seq<char>,
    table2: Seq<char>,
)
    requires
        is_path_safe(catalog1),
        is_path_safe(namespace1),
        is_path_safe(catalog2),
        is_path_safe(namespace2),
        path_of(catalog1, namespace1, table1) == path_of(catalog2, namespace2, table2),
    ensures
        catalog1 == catalog2,
        namespace1 == namespace2,
        table1 == table2,
{
    let file1 = table1 + extension_suffix();
    let file2 = table2 + extension_suffix();
    let rest1 = namespace1 + separator() + file1;
    let rest2 = namespace2 + separator() + file2;
    assert(path_of(catalog1, namespace1, table1) =~= catalog1 + separator() + rest1);
    assert(path_of(catalog2, namespace2, table2) =~= catalog2 + separator() + rest2);
    lemma_first_segment(catalog1, rest1, catalog2, rest2);
    lemma_first_segment(namespace1, file1, namespace2, file2);
    assert(table1 =~= table2) by {
        assert forall|i: int| 0 <= i < table1.len() implies table1[i] == table2[i] by {
            assert(file2[i] == table2[i]);
        }
    }
}

/// Naming is a function of the name alone: the same three parts give the same
/// path, whenever and wherever it is composed.
pub proof fn lemma_same_name_same_path(first: TableIdent, second: TableIdent)
    requires
        first.catalog@ == second.catalog@,
        first.namespace@ == second.namespace@,
        first.table@ == second.table@,
    ensures
        first.path() == second.path(),
{
}

} // verus!
