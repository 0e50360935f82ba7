use shadertoy::shader_list::ShaderList;

fn sample() -> ShaderList {
    ShaderList::new("p", "s", &[("1", "a"), ("2", "b"), ("3", "c"), ("4", "d")])
}

#[test]
fn increment_counter() {
    let mut list = sample();

    assert_eq!(list.increment_index(), 1);
    assert_eq!(list.increment_index(), 2);
    assert_eq!(list.increment_index(), 3);
    assert_eq!(list.increment_index(), 0);
}

#[test]
fn decrement_counter() {
    let mut list = sample();

    assert_eq!(list.decrement_index(), 3);
    assert_eq!(list.decrement_index(), 2);
    assert_eq!(list.decrement_index(), 1);
    assert_eq!(list.decrement_index(), 0);
}

fn compare_shader(got: (&str, String), name: &str, content: &str) {
    let (filename, full) = got;
    assert_eq!(filename, name);
    assert_eq!(full, content);
}

#[test]
fn shader() {
    let mut list = sample();

    compare_shader(list.current_shader(), "1", "pas");
    compare_shader(list.next_shader(), "2", "pbs");
    compare_shader(list.next_shader(), "3", "pcs");
    compare_shader(list.previous_shader(), "2", "pbs");
    compare_shader(list.previous_shader(), "1", "pas");
    compare_shader(list.previous_shader(), "4", "pds");
}

#[test]
fn advancing_len_times_returns_to_start() {
    let mut list = ShaderList::new("x", "y", &[("a", "1"), ("b", "2"), ("c", "3")]);
    list.next_shader();
    let start = list.current_shader();
    for _ in 0..3 {
        list.next_shader();
    }
    assert_eq!(list.current_shader(), start);
    for _ in 0..3 {
        list.previous_shader();
    }
    assert_eq!(list.current_shader(), start);
}

#[test]
fn retreat_from_first_lands_on_last_for_odd_length() {
    let mut list = ShaderList::new("", "", &[("a", "1"), ("b", "2"), ("c", "3")]);
    assert_eq!(list.decrement_index(), 2);
    assert_eq!(list.current_shader(), ("c", String::from("3")));
}

#[test]
fn single_entry_wraps_onto_itself() {
    let mut list = ShaderList::new("<", ">", &[("only", "body")]);
    assert_eq!(list.decrement_index(), 0);
    assert_eq!(list.increment_index(), 0);
    assert_eq!(list.next_shader(), ("only", String::from("<body>")));
    assert_eq!(list.previous_shader(), ("only", String::from("<body>")));
}

#[test]
fn current_is_repeatable() {
    let mut list = sample();
    list.next_shader();
    let first = list.current_shader();
    let second = list.current_shader();
    assert_eq!(first, second);
    assert_eq!(first, ("2", String::from("pbs")));
}

#[test]
fn source_is_prefix_body_suffix() {
    let mut list = ShaderList::new("fn a() {", "}\n", &[("n", " return; ")]);
    assert_eq!(list.current_shader().1, "fn a() { return; }\n");
    let empty = ShaderList::new("", "", &[("e", "")]);
    assert_eq!(empty.current_shader(), ("e", String::new()));
    assert_eq!(list.next_shader().1, "fn a() { return; }\n");
}
