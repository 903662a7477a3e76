use gen_pr::template::{compose, get_pr_details};

#[test]
fn fix_table_is_before_and_after() {
    assert_eq!(
        get_pr_details(false).1,
        "Before|After\n-|-\n<img src= width=200 />|<img src= width=200 />\n"
    );
}

#[test]
fn the_same_kind_gives_the_same_fragments() {
    assert_eq!(get_pr_details(true), get_pr_details(true));
    assert_eq!(get_pr_details(false), get_pr_details(false));
    assert_ne!(get_pr_details(true), get_pr_details(false));
}

#[test]
fn body_is_put_together_in_order() {
    let body = compose("#42", "because", "- a\n- b", "more", "table\n");
    assert_eq!(
        body,
        "#Related links\n\n#42\n\n#Why\n\nbecause\n\n#How\n\nChanges included in this pull request:\n- a\n- b\n\nmore\n#Screenshots\n\ntable\n\n\n"
    );
}

#[test]
fn empty_inputs_leave_empty_sections() {
    assert_eq!(
        compose("", "", "", "", ""),
        "#Related links\n\n\n\n#Why\n\n\n\n#How\n\nChanges included in this pull request:\n\n\n\n#Screenshots\n\n\n\n"
    );
}

#[test]
fn markers_stand_in_order() {
    let body = compose("Screenshots", "How", "Why", "Related links", "");
    let links = body.find("Related links").unwrap();
    let why = links + body[links..].find("Why").unwrap();
    let how = why + body[why..].find("How").unwrap();
    let shots = how + body[how..].find("Screenshots").unwrap();
    assert!(links < why && why < how && how < shots);
    assert_eq!(links, 1);
}

#[test]
fn body_of_a_fix_with_its_template() {
    let details = get_pr_details(false);
    let body = compose("#7", &details.0, "- abc123 Fix bug", "", &details.1);
    assert_eq!(
        body,
        "#Related links\n\n#7\n\n#Why\n\nAs pet ticket above, we need to fix the defect in this release.\n\n#How\n\nChanges included in this pull request:\n- abc123 Fix bug\n\n\n#Screenshots\n\nBefore|After\n-|-\n<img src= width=200 />|<img src= width=200 />\n\n\n"
    );
}
