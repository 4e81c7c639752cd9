use ds2s_heap_x::exports::{
    get_dll_path, PathQuery, ERROR_INSUFFICIENT_BUFFER, ERROR_SUCCESS, MAX_PATH,
};

#[test]
fn the_first_buffer_holds_260_units() {
    assert_eq!(MAX_PATH, 260);
    assert_eq!(ERROR_SUCCESS, 0);
    assert_eq!(ERROR_INSUFFICIENT_BUFFER, 122);
}

#[test]
fn a_path_that_fits_is_cut_to_its_length() {
    assert_eq!(get_dll_path(260, 37, ERROR_SUCCESS), PathQuery::Found(37));
    assert_eq!(get_dll_path(260, 0, ERROR_SUCCESS), PathQuery::Found(0));
    assert_eq!(get_dll_path(520, 300, ERROR_SUCCESS), PathQuery::Found(300));
}

#[test]
fn a_buffer_too_small_is_doubled() {
    assert_eq!(get_dll_path(260, 260, ERROR_INSUFFICIENT_BUFFER), PathQuery::Ask(520));
    assert_eq!(get_dll_path(520, 520, ERROR_INSUFFICIENT_BUFFER), PathQuery::Ask(1040));
    assert_eq!(get_dll_path(1, 1, ERROR_INSUFFICIENT_BUFFER), PathQuery::Ask(2));
}

#[test]
fn the_search_ends_when_the_buffer_cannot_grow() {
    let half = (u32::MAX as usize + 1) / 2;
    assert_eq!(
        get_dll_path(half - 1, 0, ERROR_INSUFFICIENT_BUFFER),
        PathQuery::Ask(u32::MAX as usize - 1)
    );
    assert_eq!(get_dll_path(half, 0, ERROR_INSUFFICIENT_BUFFER), PathQuery::Found(2 * half));
    assert_eq!(
        get_dll_path(usize::MAX, 0, ERROR_INSUFFICIENT_BUFFER),
        PathQuery::Found(usize::MAX)
    );
}

#[test]
fn any_other_error_ends_the_search() {
    assert_eq!(get_dll_path(260, 10, 5), PathQuery::Unknown);
    assert_eq!(get_dll_path(260, 10, 2), PathQuery::Unknown);
    assert_eq!(get_dll_path(260, 10, u32::MAX), PathQuery::Unknown);
}
