use datafusion::datasource::listing::ListingTableUrl;
use flight_ingest::destination::{
    absolute_location, destination_path, resolve, resolve_parsed, TableIdent,
};
use flight_ingest::error::ErrorKind;

fn ident(catalog: &str, namespace: &str, table: &str) -> TableIdent {
    TableIdent {
        catalog: catalog.to_string(),
        namespace: namespace.to_string(),
        table: table.to_string(),
    }
}

#[test]
fn path_joins_the_three_parts() {
    assert_eq!(destination_path("lake", "sales", "orders"), "lake/sales/orders.parquet");
}

#[test]
fn path_of_empty_parts_keeps_the_separators() {
    assert_eq!(destination_path("", "", ""), "//.parquet");
    assert_eq!(destination_path("", "sales", "orders"), "/sales/orders.parquet");
}

#[test]
fn path_keeps_characters_beyond_ascii() {
    assert_eq!(destination_path("søen", "salg", "ordrer"), "søen/salg/ordrer.parquet");
}

#[test]
fn same_name_gives_same_path() {
    let first = destination_path("lake", "sales", "orders");
    let second = destination_path("lake", "sales", "orders");
    assert_eq!(first, second);
    let once = resolve(&ident("lake", "sales", "orders")).unwrap();
    let again = resolve(&ident("lake", "sales", "orders")).unwrap();
    assert_eq!(once.path, again.path);
    assert_eq!(once.url, again.url);
}

#[test]
fn different_names_give_different_paths() {
    let orders = destination_path("lake", "sales", "orders");
    assert_ne!(orders, destination_path("lake", "sales", "order"));
    assert_ne!(orders, destination_path("lake", "sale", "sorders"));
    assert_ne!(destination_path("ab", "c", "d"), destination_path("a", "bc", "d"));
}

#[test]
fn location_is_the_path_behind_a_separator() {
    assert_eq!(absolute_location("lake/sales/orders.parquet"), "/lake/sales/orders.parquet");
    assert_eq!(absolute_location(""), "/");
}

#[test]
fn resolve_gives_path_and_absolute_location() {
    let destination = resolve(&ident("lake", "sales", "orders")).unwrap();
    assert_eq!(destination.path, "lake/sales/orders.parquet");
    assert_eq!(destination.url.as_str(), "file:///lake/sales/orders.parquet");
    assert_eq!(destination.url.scheme(), "file");
    assert!(!destination.url.is_collection());
}

#[test]
fn resolve_hands_the_location_with_a_leading_separator_to_the_parser() {
    let destination = resolve(&ident("lake", "sales", "orders")).unwrap();
    let direct = ListingTableUrl::parse("/lake/sales/orders.parquet").unwrap();
    assert_eq!(destination.url, direct);
}

#[test]
fn resolve_rejects_an_unclosed_bracket() {
    let error = resolve(&ident("lake", "sales", "orders[")).unwrap_err();
    assert_eq!(error.kind, ErrorKind::Internal);
    let cause = ListingTableUrl::parse("/lake/sales/orders[.parquet").unwrap_err().to_string();
    assert_eq!(error.message, format!("invalid table url lake/sales/orders[.parquet: {cause}"));
}

#[test]
fn resolve_rejects_a_run_of_wildcards() {
    let error = resolve(&ident("lake", "sales", "***")).unwrap_err();
    assert_eq!(error.kind, ErrorKind::Internal);
    assert!(error.message.starts_with("invalid table url lake/sales/***.parquet: "));
    assert!(error.message.len() > "invalid table url lake/sales/***.parquet: ".len());
}

#[test]
fn resolve_parsed_keeps_path_and_location() {
    let url = ListingTableUrl::parse("/lake/sales/orders.parquet").unwrap();
    let destination =
        resolve_parsed("lake/sales/orders.parquet".to_string(), Ok(url.clone())).unwrap();
    assert_eq!(destination.path, "lake/sales/orders.parquet");
    assert_eq!(destination.url, url);
}

#[test]
fn resolve_parsed_names_path_and_cause() {
    let error =
        resolve_parsed("lake/sales/or?ders.parquet".to_string(), Err("bad pattern".to_string()))
            .unwrap_err();
    assert_eq!(error.kind, ErrorKind::Internal);
    assert_eq!(error.message, "invalid table url lake/sales/or?ders.parquet: bad pattern");
}
