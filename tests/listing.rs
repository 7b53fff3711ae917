use payout_distributor::listing::{
    filter_pieces, order_clause, page_window, PayoutListData, PayoutListFilters, PayoutListQuery, SortField,
    SortOrder, SqlPiece,
};

fn query() -> PayoutListQuery {
    PayoutListQuery { search: None, wallet: None, status: None, page: None, per_page: None, sort: None, order: None }
}

fn render(pieces: &[SqlPiece]) -> String {
    pieces
        .iter()
        .map(|p| match p {
            SqlPiece::Text(t) => t.clone(),
            SqlPiece::Bind(b) => format!("[{}]", b),
        })
        .collect()
}

#[test]
fn defaults() {
    let f = PayoutListFilters::default();
    assert_eq!(f.page, 1);
    assert_eq!(f.per_page, 25);
    assert_eq!(f.sort, SortField::CreatedAt);
    assert_eq!(f.order, SortOrder::Desc);
    let g = query().into_filters();
    assert_eq!(g.page, 1);
    assert_eq!(g.per_page, 25);
    assert_eq!(g.order, SortOrder::Desc);
}

#[test]
fn page_bounds() {
    let mut q = query();
    q.page = Some(0);
    q.per_page = Some(500);
    let f = q.into_filters();
    assert_eq!(f.page, 1);
    assert_eq!(f.per_page, 200);
    let mut q = query();
    q.per_page = Some(0);
    q.page = Some(4);
    let f = q.into_filters();
    assert_eq!(f.per_page, 1);
    assert_eq!(f.page, 4);
}

#[test]
fn text_filters_normalised() {
    let mut q = query();
    q.search = Some("  abc ".to_string());
    q.wallet = Some("   ".to_string());
    q.status = Some(" created ".to_string());
    let f = q.into_filters();
    assert_eq!(f.search.as_deref(), Some("abc"));
    assert_eq!(f.wallet, None);
    assert_eq!(f.status.as_deref(), Some("CREATED"));
    let mut q = query();
    q.status = Some("  ".to_string());
    assert_eq!(q.into_filters().status, None);
}

#[test]
fn sort_and_order() {
    let mut q = query();
    q.sort = Some("status".to_string());
    let f = q.into_filters();
    assert_eq!(f.sort, SortField::Status);
    assert_eq!(f.order, SortOrder::Asc);
    let mut q = query();
    q.sort = Some("Status".to_string());
    q.order = Some("AsC".to_string());
    let f = q.into_filters();
    assert_eq!(f.sort, SortField::CreatedAt);
    assert_eq!(f.order, SortOrder::Asc);
    let mut q = query();
    q.sort = Some("status".to_string());
    q.order = Some("DESC".to_string());
    assert_eq!(q.into_filters().order, SortOrder::Desc);
    let mut q = query();
    q.order = Some("sideways".to_string());
    assert_eq!(q.into_filters().order, SortOrder::Desc);
}

#[test]
fn order_clauses() {
    let mut f = PayoutListFilters::default();
    assert_eq!(order_clause(&f), " ORDER BY p.\"createdAt\" DESC");
    f.sort = SortField::Status;
    f.order = SortOrder::Asc;
    assert_eq!(order_clause(&f), " ORDER BY p.\"status\" ASC, p.\"createdAt\" DESC");
}

#[test]
fn filter_clauses() {
    let mut f = PayoutListFilters::default();
    assert!(filter_pieces(&f).is_empty());
    f.search = Some("42".to_string());
    f.wallet = Some("41".to_string());
    f.status = Some("CREATED".to_string());
    assert_eq!(
        render(&filter_pieces(&f)),
        " AND (p.\"id\" ILIKE [%42%] OR p.\"externalReference\" ILIKE [%42%] OR p.\"numericId\"::text ILIKE [%42%]) AND p.\"wallet\" ILIKE [%41%] AND p.\"status\" = [CREATED]::\"PayoutStatus\""
    );
}

#[test]
fn page_windows() {
    let mut f = PayoutListFilters::default();
    f.page = 3;
    f.per_page = 25;
    assert_eq!(page_window(&f), (25, 50));
    f.page = 0;
    f.per_page = 900;
    assert_eq!(page_window(&f), (200, 0));
}

#[test]
fn total_pages() {
    let d = PayoutListData::<u8> { items: vec![1, 2], total: 51, page: 1, per_page: 25 };
    let r = d.into_response();
    assert_eq!(r.pagination.total_pages, 3);
    assert_eq!(r.items, vec![1, 2]);
    let d = PayoutListData::<u8> { items: vec![], total: 0, page: 1, per_page: 25 };
    assert_eq!(d.into_response().pagination.total_pages, 0);
    let d = PayoutListData::<u8> { items: vec![], total: 50, page: 2, per_page: 25 };
    assert_eq!(d.into_response().pagination.total_pages, 2);
}
