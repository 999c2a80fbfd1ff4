use sidecar_supervisor::ports::find_available_port;

#[test]
fn first_candidate_free() {
    let bindable = vec![true, true, false];
    assert_eq!(find_available_port(8000, &bindable), 8000);
}

#[test]
fn first_free_in_middle() {
    let bindable = vec![false, false, true, false, true];
    assert_eq!(find_available_port(8000, &bindable), 8002);
}

#[test]
fn last_candidate_free() {
    let bindable = vec![false, false, false, false, false, false, false, false, false, true];
    assert_eq!(find_available_port(8000, &bindable), 8009);
}

#[test]
fn no_candidate_free_falls_back_to_start() {
    let bindable = vec![false; 10];
    assert_eq!(find_available_port(8000, &bindable), 8000);
}

#[test]
fn single_candidate() {
    assert_eq!(find_available_port(9123, &vec![true]), 9123);
    assert_eq!(find_available_port(9123, &vec![false]), 9123);
}

#[test]
fn scan_reaching_top_of_port_range() {
    let bindable = vec![false, true];
    assert_eq!(find_available_port(65534, &bindable), 65535);
}
