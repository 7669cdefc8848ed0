use artifacts_bot::server::{api_url, next_page, Backoff, MAX_RETRIES};

#[test]
fn api_urls() {
    assert_eq!(api_url(&"maps".to_string()), "https://api.artifactsmmo.com/maps");
    assert_eq!(api_url(&String::new()), "https://api.artifactsmmo.com/");
}

#[test]
fn paging_stops_at_the_last_page() {
    assert_eq!(next_page(1, 3), Some(2));
    assert_eq!(next_page(2, 3), Some(3));
    assert_eq!(next_page(3, 3), None);
    assert_eq!(next_page(1, 1), None);
}

#[test]
fn a_listing_of_n_pages_takes_n_requests() {
    for pages in 1usize..10 {
        let mut page = 1;
        let mut requested = vec![page];
        while let Some(next) = next_page(page, pages) {
            page = next;
            requested.push(page);
        }
        assert_eq!(requested, (1..=pages).collect::<Vec<_>>());
    }
}

#[test]
fn backoff_doubles_its_wait_ten_times() {
    let mut backoff = Backoff::new();
    let mut delays = Vec::new();
    while let Some(d) = backoff.next_delay() {
        delays.push(d);
    }
    assert_eq!(delays, vec![1, 2, 4, 8, 16, 32, 64, 128, 256, 512]);
    assert_eq!(delays.len(), MAX_RETRIES as usize);
    assert_eq!(delays.iter().sum::<u64>(), 1023);
    assert_eq!(backoff.next_delay(), None);
}
