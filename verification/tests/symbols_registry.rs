use unicorn::registry::{FuncInfo, Registry};
use unicorn::symbols::symbol_of;

#[test]
fn symbol_is_fixed_length() {
    // A 512-bit digest rendered as padded Base64 is always 88 characters,
    // whatever the length of the source identifier.
    assert_eq!(symbol_of("main").len(), 88);
    assert_eq!(symbol_of("").len(), 88);
    assert_eq!(
        symbol_of("a_rather_long_function_name_with_many_characters_in_it").len(),
        88
    );
}

#[test]
fn symbol_is_deterministic() {
    // Hashing the same function name twice yields the same registry key.
    assert_eq!(symbol_of("main"), symbol_of("main"));
    assert_eq!(symbol_of("foo"), symbol_of("foo"));
    assert_eq!(symbol_of(""), symbol_of(""));
}

#[test]
fn distinct_names_get_distinct_symbols() {
    let corpus = [
        "main", "foo", "bar", "buzz", "add", "stdprint", "now", "elapsed", "a", "b", "ab", "ba",
        "main_", "_main", "Main", "x0", "x1", "x2", "aa", "aaa",
    ];
    for (i, a) in corpus.iter().enumerate() {
        for b in corpus.iter().skip(i + 1) {
            assert_ne!(symbol_of(a), symbol_of(b), "collision between {a} and {b}");
        }
    }
}

#[test]
fn symbol_is_linker_safe() {
    // Base64 output: alphanumerics, '+', '/' and '=' padding only.
    let sym = symbol_of("main");
    for c in sym.chars() {
        assert!(c.is_ascii_alphanumeric() || c == '+' || c == '/' || c == '=');
    }
}

#[test]
fn registry_resolves_registered_names() {
    let mut reg = Registry::new();
    reg.register("stdprint", 0, 1, 0);
    reg.register("add", 1, 2, 1);
    assert_eq!(reg.resolve("add"), Some(FuncInfo { id: 1, params: 2, returns: 1 }));
    assert_eq!(reg.resolve("stdprint"), Some(FuncInfo { id: 0, params: 1, returns: 0 }));
    assert_eq!(reg.resolve("missing"), None);
}

#[test]
fn later_declaration_overrides_earlier() {
    let mut reg = Registry::new();
    reg.register("foo", 4, 1, 1);
    reg.register("foo", 5, 2, 1);
    assert_eq!(reg.resolve("foo"), Some(FuncInfo { id: 5, params: 2, returns: 1 }));
}

#[test]
fn lookup_goes_through_the_hashed_symbol() {
    let mut reg = Registry::new();
    reg.register("foo", 4, 0, 1);
    let sym = symbol_of("foo");
    assert_eq!(reg.lookup_symbol(&sym), Some(FuncInfo { id: 4, params: 0, returns: 1 }));
    assert_eq!(reg.lookup_symbol(&symbol_of("bar")), None);
}
