//! The template selector and the description composer.

use vstd::prelude::*;
use vstd::string::*;
use crate::text::occurs_at;

verus! {

/// Why the change is made, in the words kept for a feature branch or for a
/// fix.
pub open spec fn rationale(is_feature_branch: bool) -> Seq<char> {
    if is_feature_branch {
        "As pet ticket above, Product wants to improve this feature, hence we are ..."@
    } else {
        "As pet ticket above, we need to fix the defect in this release."@
    }
}

/// The table that waits for screenshots: four columns for a feature
/// branch, before and after for a fix.
pub open spec fn screenshot_table(is_feature_branch: bool) -> Seq<char> {
    if is_feature_branch {
        "Normal|Dark Mode|Accessibility |RTL\n---|---|---|---\n<img src= width=200 />|<img src= width=200 />|<img src= width=200 />|<img src= width=200 />\n"@
    } else {
        "Before|After\n-|-\n<img src= width=200 />|<img src= width=200 />\n"@
    }
}

/// The body of a pull request: the sections in their fixed order, each
/// filled with what it is given. An empty text leaves its section empty.
pub open spec fn composed(
    issue: Seq<char>,
    why: Seq<char>,
    logs: Seq<char>,
    extra_description: Seq<char>,
    screenshots: Seq<char>,
) -> Seq<char> {
    "#Related links\n\n"@ + issue + "\n\n#Why\n\n"@ + why
        + "\n\n#How\n\nChanges included in this pull request:\n"@ + logs + "\n\n"@
        + extra_description + "\n#Screenshots\n\n"@ + screenshots + "\n\n"@
}

/// The four section markers stand in `body` one after the other, none
/// reaching into the next.
pub open spec fn sections_in_order(body: Seq<char>) -> bool {
    exists|links: int, why: int, how: int, shots: int|
        {
            &&& #[trigger] occurs_at(body, "Related links"@, links)
            &&& links + "Related links"@.len() <= why
            &&& #[trigger] occurs_at(body, "Why"@, why)
            &&& why + "Why"@.len() <= how
            &&& #[trigger] occurs_at(body, "How"@, how)
            &&& how + "How"@.len() <= shots
            &&& #[trigger] occurs_at(body, "Screenshots"@, shots)
        }
}

/// The two fragments of the template for a kind of branch: the rationale
/// and the screenshot table.
pub fn get_pr_details(is_feature_branch: bool) -> (details: (String, String))
    ensures
        details.0@ == rationale(is_feature_branch),
        details.1@ == screenshot_table(is_feature_branch),
{
    if is_feature_branch {
        (
            "As pet ticket above, Product wants to improve this feature, hence we are ...".to_owned(),
            "Normal|Dark Mode|Accessibility |RTL\n---|---|---|---\n<img src= width=200 />|<img src= width=200 />|<img src= width=200 />|<img src= width=200 />\n".to_owned(),
        )
    } else {
        (
            "As pet ticket above, we need to fix the defect in this release.".to_owned(),
            "Before|After\n-|-\n<img src= width=200 />|<img src= width=200 />\n".to_owned(),
        )
    }
}

/// Puts the body of a pull request together.
pub fn compose(
    issue: &str,
    why: &str,
    logs: &str,
    extra_description: &str,
    screenshots: &str,
) -> (body: String)
    ensures
        body@ == composed(issue@, why@, logs@, extra_description@, screenshots@),
        sections_in_order(body@),
{
    let mut body = "#Related links\n\n".to_owned();
    body.append(issue);
    body.append("\n\n#Why\n\n");
    body.append(why);
    body.append("\n\n#How\n\nChanges included in this pull request:\n");
    body.append(logs);
    body.append("\n\n");
    body.append(extra_description);
    body.append("\n#Screenshots\n\n");
    body.append(screenshots);
    body.append("\n\n");
    proof {
        lemma_composed_sections(issue@, why@, logs@, extra_description@, screenshots@);
    }
    body
}

/// Whatever the sections are filled with, the body holds the markers
/// "Related links", "Why", "How" and "Screenshots" in this order.
pub proof fn lemma_composed_sections(
    issue: Seq<char>,
    why: Seq<char>,
    logs: Seq<char>,
    extra_description: Seq<char>,
    screenshots: Seq<char>,
)
    ensures
        sections_in_order(composed(issue, why, logs, extra_description, screenshots)),
{
    reveal_strlit("#Related links\n\n");
    reveal_strlit("\n\n#Why\n\n");
    reveal_strlit("\n\n#How\n\nChanges included in this pull request:\n");
    reveal_strlit("\n\n");
    reveal_strlit("\n#Screenshots\n\n");
    reveal_strlit("Related links");
    reveal_strlit("Why");
    reveal_strlit("How");
    reveal_strlit("Screenshots");
    let body = composed(issue, why, logs, extra_description, screenshots);
    let links: int = 1;
    let at_why: int = 16 + issue.len() as int + 3;
    let at_how: int = at_why + 5 + why.len() as int + 3;
    let at_shots: int = at_how + 44 + logs.len() as int + 2 + extra_description.len() as int + 2;
    assert(body.subrange(links, links + 13) =~= "Related links"@);
    assert(body.subrange(at_why, at_why + 3) =~= "Why"@);
    assert(body.subrange(at_how, at_how + 3) =~= "How"@);
    assert(body.subrange(at_shots, at_shots + 11) =~= "Screenshots"@);
    assert(occurs_at(body, "Related links"@, links));
    assert(occurs_at(body, "Why"@, at_why));
    assert(occurs_at(body, "How"@, at_how));
    assert(occurs_at(body, "Screenshots"@, at_shots));
}

} // verus!
