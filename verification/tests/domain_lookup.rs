use domeneshop_cli::commands::domain::{Domain, DomainServices, WebhotelType};
use domeneshop_cli::domain_lookup::{get_domain_id, DomainIdOrHost};

fn domain(id: i32, name: &str) -> Domain {
    Domain {
        id,
        domain: name.to_string(),
        registrant: "Kari Nordmann".to_string(),
        registered_date: None,
        expiry_date: "2030-01-01".to_string(),
        status: "active".to_string(),
        renew: true,
        nameservers: Vec::new(),
        services: DomainServices {
            registrar: true,
            dns: false,
            email: false,
            webhotel: WebhotelType::NoWebhotel,
        },
    }
}

#[test]
fn a_number_is_an_identifier() {
    assert!(matches!(DomainIdOrHost::from_str("1234"), Ok(DomainIdOrHost::DomainId(1234))));
    assert!(matches!(DomainIdOrHost::from_str("-5"), Ok(DomainIdOrHost::DomainId(-5))));
    assert!(matches!(DomainIdOrHost::from_str("+5"), Ok(DomainIdOrHost::DomainId(5))));
}

#[test]
fn anything_else_is_a_host() {
    match DomainIdOrHost::from_str("example.com") {
        Ok(DomainIdOrHost::Host(host)) => assert_eq!(host, "example.com"),
        other => panic!("unexpected {:?}", other),
    }
    match DomainIdOrHost::from_str("") {
        Ok(DomainIdOrHost::Host(host)) => assert_eq!(host, ""),
        other => panic!("unexpected {:?}", other),
    }
    match DomainIdOrHost::from_str("2147483648") {
        Ok(DomainIdOrHost::Host(host)) => assert_eq!(host, "2147483648"),
        other => panic!("unexpected {:?}", other),
    }
    match DomainIdOrHost::from_str("12 ") {
        Ok(DomainIdOrHost::Host(host)) => assert_eq!(host, "12 "),
        other => panic!("unexpected {:?}", other),
    }
}

#[test]
fn parse_goes_through_from_str() {
    let read: Result<DomainIdOrHost, &'static str> = "77".parse();
    assert!(matches!(read, Ok(DomainIdOrHost::DomainId(77))));
    let read: Result<DomainIdOrHost, &'static str> = "example.no".parse();
    assert!(matches!(read, Ok(DomainIdOrHost::Host(_))));
}

#[test]
fn only_a_host_needs_a_listing() {
    assert_eq!(DomainIdOrHost::DomainId(3).lookup_filter(), None);
    assert_eq!(
        DomainIdOrHost::Host("example.com".to_string()).lookup_filter(),
        Some("example.com".to_string())
    );
}

#[test]
fn an_identifier_stands_for_itself() {
    let input = DomainIdOrHost::DomainId(42);
    assert_eq!(get_domain_id(&input, None), Some(42));
    assert_eq!(get_domain_id(&input, Some(&Vec::new())), Some(42));
    assert_eq!(get_domain_id(&input, Some(&vec![domain(7, "example.com")])), Some(42));
}

#[test]
fn a_host_with_one_domain_has_its_identifier() {
    let input = DomainIdOrHost::Host("example.com".to_string());
    assert_eq!(get_domain_id(&input, Some(&vec![domain(1234, "example.com")])), Some(1234));
}

#[test]
fn a_host_without_a_domain_has_no_identifier() {
    let input = DomainIdOrHost::Host("example.com".to_string());
    assert_eq!(get_domain_id(&input, Some(&Vec::new())), None);
}

#[test]
fn a_host_whose_listing_failed_has_no_identifier() {
    let input = DomainIdOrHost::Host("example.com".to_string());
    assert_eq!(get_domain_id(&input, None), None);
}

#[test]
fn the_first_of_several_domains_is_taken() {
    let input = DomainIdOrHost::Host("example".to_string());
    let listing = vec![domain(5, "example.com"), domain(6, "example.no")];
    assert_eq!(get_domain_id(&input, Some(&listing)), Some(5));
}

#[test]
fn a_copy_is_the_same_input() {
    let input = DomainIdOrHost::Host("example.com".to_string());
    match input.clone() {
        DomainIdOrHost::Host(host) => assert_eq!(host, "example.com"),
        other => panic!("unexpected {:?}", other),
    }
    assert!(matches!(DomainIdOrHost::DomainId(9).clone(), DomainIdOrHost::DomainId(9)));
}
