use ilias_client::error::ReferenceError;
use ilias_client::reference::Reference;

/// Resolving twice performs exactly one underlying fetch: the second call
/// returns the memoized value without the reference requesting another fetch.
#[test]
fn resolve_twice_fetches_once() {
    let mut r: Reference<String> = Reference::from_optional_querypath(Some("goto.php/fold/1".to_string()));
    let mut fetches = 0usize;

    for _round in 0..2 {
        let fetched = match r.pending_querypath() {
            Some(qp) => {
                assert_eq!(qp, "goto.php/fold/1");
                fetches += 1;
                Some(format!("node from {qp}"))
            }
            None => None,
        };
        let value = r.resolve(fetched).unwrap();
        assert_eq!(value, "node from goto.php/fold/1");
    }

    assert_eq!(fetches, 1);
}

/// A reference built from no address is unavailable: resolving it always
/// fails and never requests a fetch.
#[test]
fn unavailable_reference_never_fetches() {
    let mut r: Reference<String> = Reference::from_optional_querypath(None);
    assert!(r.pending_querypath().is_none());
    assert_eq!(r.resolve(None).unwrap_err(), ReferenceError::Unavailable);
    // Still unavailable afterwards; a second attempt fails the same way.
    assert!(r.pending_querypath().is_none());
    assert_eq!(r.resolve(None).unwrap_err(), ReferenceError::Unavailable);
    assert!(r.try_get_resolved().is_none());
}

#[test]
fn try_get_resolved_only_after_resolution() {
    let mut r: Reference<u32> = Reference::from_optional_querypath(Some("qp".to_string()));
    assert!(r.try_get_resolved().is_none());
    r.resolve(Some(7)).unwrap();
    assert_eq!(r.try_get_resolved(), Some(&7));
}

#[test]
fn resolved_reference_keeps_its_value() {
    let mut r: Reference<u32> = Reference::Unresolved("qp".to_string());
    assert_eq!(r.resolve(Some(1)).unwrap(), &1);
    // The memoized value survives later resolves unchanged.
    assert_eq!(r.resolve(None).unwrap(), &1);
    assert_eq!(r.resolve(None).unwrap(), &1);
}
