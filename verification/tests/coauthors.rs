use repo_miner::coauthors::find_coauthors;
use repo_miner::git_logger::User;

#[test]
fn authorless_message_has_no_coauthors() {
    assert_eq!(find_coauthors("do be do be do"), Vec::<User>::new());
}

#[test]
fn can_get_coauthors_from_message() {
    let message = r#"This is a commit message
        not valid: Co-authored-by: fred jones
        Co-authored-by: valid user <valid@thing.com>
        Co-authored-by: <be.lenient@any-domain.com>
        Co-authored-by: bad@user <this isn't really trying to be clever>
        ignore random lines
        Co-authored-by: if there's no at it's a name
        Co-authored-by: if there's an @ it's email@thing.com
        ignore trailing lines
        "#;

    let expected = vec![
        User::new("valid user", "valid@thing.com"),
        User::new("", "be.lenient@any-domain.com"),
        User::new("bad@user", "this isn't really trying to be clever"),
        User::new("if there's no at it's a name", ""),
        User::new("", "if there's an @ it's email@thing.com"),
    ];

    assert_eq!(find_coauthors(message), expected);
}

#[test]
fn angle_bracket_trailer_yields_name_and_email() {
    let found = find_coauthors("Co-authored-by: valid user <valid@thing.com>");
    assert_eq!(found, vec![User::new("valid user", "valid@thing.com")]);
}

#[test]
fn bare_angle_bracket_email_yields_empty_name() {
    let found = find_coauthors("Co-authored-by: <be.lenient@any-domain.com>");
    assert_eq!(found, vec![User::new("", "be.lenient@any-domain.com")]);
}

#[test]
fn text_without_at_yields_plain_name() {
    let found = find_coauthors("Co-authored-by: if there's no at it's a name");
    assert_eq!(found, vec![User::new("if there's no at it's a name", "")]);
}

#[test]
fn text_with_at_yields_bare_email() {
    let found = find_coauthors("Co-authored-by: if there's an @ it's email@thing.com");
    assert_eq!(found, vec![User::new("", "if there's an @ it's email@thing.com")]);
}

#[test]
fn keyword_is_case_sensitive() {
    assert_eq!(
        find_coauthors("co-authored-by: lower case <x@y.z>"),
        Vec::<User>::new()
    );
}

#[test]
fn duplicates_are_kept_in_order() {
    let message = "Co-authored-by: a <a@b.c>\nCo-authored-by: a <a@b.c>";
    let expected = vec![User::new("a", "a@b.c"), User::new("a", "a@b.c")];
    assert_eq!(find_coauthors(message), expected);
}

#[test]
fn empty_rest_is_an_empty_name() {
    assert_eq!(find_coauthors("Co-authored-by:"), vec![User::new("", "")]);
}

#[test]
fn brackets_without_closing_fall_back() {
    assert_eq!(
        find_coauthors("Co-authored-by: half <open"),
        vec![User::new("half <open", "")]
    );
}
