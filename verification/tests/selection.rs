use pyc_normalize::selection::filter;

#[test]
fn filter_a() {
    assert!(filter("/some/path/foobar.pyc"));
    assert!(!filter("/some/path/foobar.apyc"));
    assert!(filter("/some/path/foobar.opt-2.pyc"));
    assert!(!filter("/some/path/foobar"));
    assert!(!filter("/some/path/pyc"));
    assert!(!filter("/some/path/pyc_pyc"));
    assert!(!filter("/"));
}

#[test]
fn filter_bare_names() {
    assert!(filter("foobar.pyc"));
    assert!(!filter("pyc"));
    assert!(!filter(""));
}

#[test]
fn filter_hidden_and_trailing() {
    // a hidden file named exactly ".pyc" has no extension
    assert!(!filter(".pyc"));
    assert!(!filter("/some/path/.pyc"));
    // trailing separators do not change which file is named
    assert!(filter("/some/path/foobar.pyc/"));
    // a dotted final component still selects on its last extension
    assert!(filter("/some/path/..pyc"));
}

#[test]
fn filter_trailing_dot_components() {
    // a trailing "." component names the same file
    assert!(filter("/some/path/foobar.pyc/."));
    assert!(filter("/some/path/foobar.pyc/./"));
    assert!(filter("/some/path/foobar.pyc/.//"));
    assert!(filter("foobar.pyc/./."));
    assert!(!filter("/some/path/foobar.apyc/."));
    // "." and "./" name no file with an extension
    assert!(!filter("."));
    assert!(!filter("./"));
    assert!(!filter("/."));
    // a trailing ".." component names no file
    assert!(!filter("foobar.pyc/.."));
}
