use vstd::prelude::*;
use vstd::string::*;
use vstd::multiset::Multiset;
use substring::Substring;
use crate::document::Document;
use crate::model::{Post, PostView, PostWithId, PostWithIdView, StoreError, post_views};
use crate::store::{post_of, post_with_id_of, post_with_id_from_document, post_from_document, post_document, holds_text_fields, post_fields, title_key, body_key, author_key, date_key, lemma_stored_post_reads_back};
use crate::model::LoggedInUser;
use vstd::utf8::encode_utf8;

verus! {

broadcast use vstd::seq_lib::group_to_multiset_ensures;

/// `a` comes strictly before `b` in the order of their characters from
/// position `i` on, given that they agree before it.
pub open spec fn lex_lt_from(a: Seq<char>, b: Seq<char>, i: int) -> bool
    decreases a.len() - i,
{
    if i < 0 || i >= a.len() {
        0 <= i < b.len()
    } else if i >= b.len() {
        false
    } else if a[i] as u32 != b[i] as u32 {
        (a[i] as u32) < (b[i] as u32)
    } else {
        lex_lt_from(a, b, i + 1)
    }
}

/// Lexical order of strings by code point, which is the order of their
/// UTF-8 bytes, and so the order of `String`'s `Ord`.
pub open spec fn lex_lt(a: Seq<char>, b: Seq<char>) -> bool {
    lex_lt_from(a, b, 0)
}

/// No post is followed by one with a later date string.
pub open spec fn sorted_by_date_desc(s: Seq<PostWithIdView>) -> bool {
    forall|i: int, j: int| 0 <= i < j < s.len() ==> !lex_lt(#[trigger] s[i].date, #[trigger] s[j].date)
}

/// Whether a post carries the date `d`.
pub open spec fn has_date(d: Seq<char>) -> spec_fn(PostWithIdView) -> bool {
    |p: PostWithIdView| p.date == d
}

/// The posts of `s` that carry the date `d`, in their order in `s`.
pub open spec fn dated(s: Seq<PostWithIdView>, d: Seq<char>) -> Seq<PostWithIdView> {
    s.filter(has_date(d))
}

/// The first ten characters of a date, or all of them where it is shorter.
pub open spec fn display_date_of(date: Seq<char>) -> Seq<char> {
    if date.len() <= 10 {
        date
    } else {
        date.subrange(0, 10)
    }
}

/// A listed post as it is shown: its date cut to the display width.
pub open spec fn shown(p: PostWithIdView) -> PostWithIdView {
    PostWithIdView { date: display_date_of(p.date), ..p }
}

proof fn lemma_lex_lt_from_negatively_transitive(a: Seq<char>, b: Seq<char>, c: Seq<char>, i: int)
    requires
        0 <= i,
        lex_lt_from(a, c, i),
    ensures
        lex_lt_from(a, b, i) || lex_lt_from(b, c, i),
    decreases a.len() - i,
{
    if i < a.len() && i < b.len() && i < c.len() && a[i] as u32 == b[i] as u32 && b[i] as u32
        == c[i] as u32 {
        lemma_lex_lt_from_negatively_transitive(a, b, c, i + 1);
    }
}

/// Where `a < c`, every `b` lies above `a` or below `c`.
pub proof fn lemma_lex_lt_negatively_transitive(a: Seq<char>, b: Seq<char>, c: Seq<char>)
    requires
        lex_lt(a, c),
    ensures
        lex_lt(a, b) || lex_lt(b, c),
{
    lemma_lex_lt_from_negatively_transitive(a, b, c, 0);
}

/// No two strings come each before the other.
pub proof fn lemma_lex_lt_asymmetric(a: Seq<char>, b: Seq<char>)
    requires
        lex_lt(a, b),
    ensures
        !lex_lt(b, a),
{
    lemma_lex_lt_from_asymmetric(a, b, 0);
}

proof fn lemma_lex_lt_from_asymmetric(a: Seq<char>, b: Seq<char>, i: int)
    requires
        0 <= i,
        lex_lt_from(a, b, i),
    ensures
        !lex_lt_from(b, a, i),
    decreases a.len() - i,
{
    if i < a.len() && i < b.len() && a[i] as u32 == b[i] as u32 {
        lemma_lex_lt_from_asymmetric(a, b, i + 1);
    }
}

proof fn lemma_dated_none(s: Seq<PostWithIdView>, d: Seq<char>)
    requires
        forall|i: int| 0 <= i < s.len() ==> (#[trigger] s[i]).date != d,
    ensures
        dated(s, d) =~= Seq::<PostWithIdView>::empty(),
    decreases s.len(),
{
    reveal(Seq::filter);
    if s.len() > 0 {
        lemma_dated_none(s.drop_last(), d);
    }
}

/// Inserting `x` ahead of all posts with a later date than its own, and
/// behind none with its own date, puts it first among the posts of its date.
proof fn lemma_dated_insert(ov: Seq<PostWithIdView>, k: int, x: PostWithIdView, d: Seq<char>)
    requires
        0 <= k <= ov.len(),
        forall|j: int| 0 <= j < k ==> lex_lt(x.date, #[trigger] ov[j].date),
    ensures
        dated(ov.insert(k, x), d) == (if x.date == d {
            seq![x]
        } else {
            Seq::<PostWithIdView>::empty()
        }) + dated(ov, d),
{
    let a = ov.subrange(0, k);
    let b = ov.subrange(k, ov.len() as int);
    assert(ov =~= a + b);
    assert(ov.insert(k, x) =~= a + (seq![x] + b));
    Seq::filter_distributes_over_add(a, b, has_date(d));
    Seq::filter_distributes_over_add(a, seq![x] + b, has_date(d));
    b.lemma_filter_prepend(x, has_date(d));
    if x.date == d {
        assert forall|i: int| 0 <= i < a.len() implies (#[trigger] a[i]).date != d by {
            assert(lex_lt(x.date, ov[i].date));
            if x.date == ov[i].date {
                lemma_lex_lt_asymmetric(x.date, x.date);
            }
        }
        lemma_dated_none(a, d);
        assert(dated(ov.insert(k, x), d) =~= seq![x] + dated(ov, d));
    } else {
        assert(dated(ov.insert(k, x), d) =~= dated(ov, d));
    }
}

/// Whether string `a` comes strictly before string `b` in lexical order.
pub fn lex_less(a: &String, b: &String) -> (r: bool)
    ensures
        r == lex_lt(a@, b@),
{
    let sa = a.as_str();
    let sb = b.as_str();
    let la = sa.unicode_len();
    let lb = sb.unicode_len();
    let mut i: usize = 0;
    while i < la && i < lb
        invariant
            la == a@.len(),
            lb == b@.len(),
            sa@ == a@,
            sb@ == b@,
            i <= la,
            i <= lb,
            lex_lt(a@, b@) == lex_lt_from(a@, b@, i as int),
        decreases la - i,
    {
        let ca = sa.get_char(i);
        let cb = sb.get_char(i);
        if ca as u32 != cb as u32 {
            return (ca as u32) < (cb as u32);
        }
        i = i + 1;
    }
    i < lb
}

/// Orders posts by their date string, latest first; posts with equal dates
/// keep their order.
pub fn sort_by_date_desc(posts: Vec<PostWithId>) -> (r: Vec<PostWithId>)
    ensures
        post_views(r@).to_multiset() == post_views(posts@).to_multiset(),
        sorted_by_date_desc(post_views(r@)),
        forall|d: Seq<char>| #[trigger] dated(post_views(r@), d) == dated(post_views(posts@), d),
{
    let ghost all = post_views(posts@);
    let ghost n = all.len();
    let mut out: Vec<PostWithId> = Vec::new();
    let mut rest = posts;
    proof {
        assert forall|d: Seq<char>| #[trigger] dated(post_views(out@), d) == dated(all.subrange(n as int, n as int), d) by {
            reveal(Seq::filter);
            assert(post_views(out@) =~= all.subrange(n as int, n as int));
        }
    }
    assert(post_views(out@).to_multiset() =~= Multiset::empty());
    assert(post_views(out@).to_multiset().add(post_views(rest@).to_multiset()) =~= all.to_multiset());
    while rest.len() > 0
        invariant
            post_views(out@).to_multiset().add(post_views(rest@).to_multiset()) == all.to_multiset(),
            sorted_by_date_desc(post_views(out@)),
            n == all.len(),
            rest@.len() <= n,
            post_views(rest@) == all.subrange(0, rest@.len() as int),
            forall|d: Seq<char>|
                #[trigger] dated(post_views(out@), d) == dated(all.subrange(rest@.len() as int, n as int), d),
        decreases rest@.len(),
    {
        let ghost before = rest@;
        let p = rest.pop().unwrap();
        proof {
            assert(post_views(before) =~= post_views(rest@).push(p@));
            vstd::seq_lib::to_multiset_build(post_views(rest@), p@);
        }
        // the new post goes before the first one whose date is not later than its own
        let mut k: usize = 0;
        while k < out.len()
            invariant
                k <= out@.len(),
                forall|j: int| 0 <= j < k ==> lex_lt(p.date@, #[trigger] out@[j].date@),
            ensures
                k <= out@.len(),
                forall|j: int| 0 <= j < k ==> lex_lt(p.date@, #[trigger] out@[j].date@),
                k < out@.len() ==> !lex_lt(p.date@, out@[k as int].date@),
            decreases out@.len() - k,
        {
            if !lex_less(&p.date, &out[k].date) {
                break;
            }
            k = k + 1;
        }
        let ghost ov = post_views(out@);
        let ghost x = p@;
        out.insert(k, p);
        proof {
            assert(post_views(out@) =~= ov.insert(k as int, x));
            vstd::seq_lib::to_multiset_insert(ov, k as int, x);
            let nv = post_views(out@);
            assert forall|a: int, b: int| 0 <= a < b < nv.len() implies !lex_lt(
                #[trigger] nv[a].date,
                #[trigger] nv[b].date,
            ) by {
                if a < k && b == k {
                    assert(lex_lt(x.date, ov[a].date));
                    lemma_lex_lt_asymmetric(x.date, ov[a].date);
                } else if a == k && b > k {
                    assert(!lex_lt(x.date, ov[k as int].date));
                    if b - 1 > k && lex_lt(x.date, ov[b - 1].date) {
                        assert(!lex_lt(ov[k as int].date, ov[b - 1].date));
                        lemma_lex_lt_negatively_transitive(x.date, ov[k as int].date, ov[b - 1].date);
                    }
                } else if a > k {
                    assert(nv[a] == ov[a - 1] && nv[b] == ov[b - 1]);
                } else if b > k {
                    assert(nv[a] == ov[a] && nv[b] == ov[b - 1]);
                } else {
                    assert(nv[a] == ov[a] && nv[b] == ov[b]);
                }
            }
            assert(post_views(out@).to_multiset().add(post_views(rest@).to_multiset()) =~= all.to_multiset());
            let m = rest@.len() as int;
            assert(post_views(rest@) =~= all.subrange(0, m));
            assert(post_views(before) == all.subrange(0, m + 1));
            assert(post_views(before)[m] == x);
            assert(all.subrange(0, m + 1)[m] == all[m]);
            assert(x == all[m]);
            assert(all.subrange(m, n as int) =~= seq![x] + all.subrange(m + 1, n as int));
            assert forall|d: Seq<char>|
                #[trigger] dated(post_views(out@), d) == dated(all.subrange(m, n as int), d) by {
                lemma_dated_insert(ov, k as int, x, d);
                all.subrange(m + 1, n as int).lemma_filter_prepend(x, has_date(d));
            }
        }
    }
    assert(post_views(rest@).to_multiset() =~= Multiset::empty());
    assert(all.subrange(0, n as int) =~= all);
    assert(post_views(out@).to_multiset().add(post_views(rest@).to_multiset()) =~= post_views(out@).to_multiset());
    out
}

/// Relies on `substring::Substring::substring`: the characters of `s` from
/// position `start` up to `end`, both cut at the end of `s`, and nothing where
/// `end <= start`.
#[verifier::external_body]
fn char_substring(s: &str, start: usize, end: usize) -> (r: String)
    ensures
        end <= start ==> r@.len() == 0,
        start < end ==> r@ == s@.subrange(
            if start <= s@.len() { start as int } else { s@.len() as int },
            if end <= s@.len() { end as int } else { s@.len() as int },
        ),
{
    s.substring(start, end).to_string()
}

/// The date as it is shown: its first ten characters.
pub fn display_date(date: &String) -> (r: String)
    ensures
        r@ == display_date_of(date@),
{
    let r = char_substring(date.as_str(), 0, 10);
    assert(date@.len() <= 10 ==> date@.subrange(0, date@.len() as int) =~= date@);
    r
}

/// The posts as they are shown: each date cut to its first ten characters.
pub fn with_display_dates(posts: Vec<PostWithId>) -> (r: Vec<PostWithId>)
    ensures
        post_views(r@) == post_views(posts@).map_values(|p: PostWithIdView| shown(p)),
{
    let ghost all = posts@;
    let mut rest = posts;
    let mut out: Vec<PostWithId> = Vec::new();
    while rest.len() > 0
        invariant
            rest@ == all.subrange(0, rest@.len() as int),
            out@.len() == all.len() - rest@.len(),
            forall|i: int|
                0 <= i < out@.len() ==> (#[trigger] out@[i])@ == shown(all[rest@.len() + i]@),
        decreases rest@.len(),
    {
        let p = rest.pop().unwrap();
        let date = display_date(&p.date);
        let q = PostWithId { _id: p._id, title: p.title, body: p.body, author: p.author, date };
        out.insert(0, q);
        assert(rest@ =~= all.subrange(0, rest@.len() as int));
    }
    assert(post_views(out@) =~= post_views(all).map_values(|p: PostWithIdView| shown(p)));
    out
}

/// The posts that stored documents hold, in the documents' order.
pub open spec fn stored_posts(docs: Seq<Document>) -> Seq<PostWithIdView> {
    docs.map_values(|d: Document| post_with_id_of(d)->Some_0)
}

/// Every document holds a post with its identifier.
pub open spec fn all_hold_posts(docs: Seq<Document>) -> bool {
    forall|i: int| 0 <= i < docs.len() ==> (#[trigger] post_with_id_of(docs[i])) is Some
}

/// Reads the posts out of stored documents; fails where one of them is not a post.
pub fn posts_from_documents(docs: &Vec<Document>) -> (r: Result<Vec<PostWithId>, StoreError>)
    ensures
        all_hold_posts(docs@) ==> (r matches Ok(v) && post_views(v@) == stored_posts(docs@)),
        !all_hold_posts(docs@) ==> r == Err::<Vec<PostWithId>, StoreError>(
            StoreError::StoreProtocolError,
        ),
{
    let mut out: Vec<PostWithId> = Vec::new();
    let mut i: usize = 0;
    while i < docs.len()
        invariant
            i <= docs@.len(),
            out@.len() == i,
            forall|j: int| 0 <= j < i ==> (#[trigger] post_with_id_of(docs@[j])) is Some,
            forall|j: int| 0 <= j < i ==> (#[trigger] out@[j])@ == post_with_id_of(docs@[j])->Some_0,
        decreases docs@.len() - i,
    {
        match post_with_id_from_document(&docs[i]) {
            Ok(p) => out.push(p),
            Err(e) => {
                assert(!all_hold_posts(docs@));
                return Err(e);
            },
        }
        i = i + 1;
    }
    assert(post_views(out@) =~= stored_posts(docs@));
    Ok(out)
}

/// The home page's listing: the stored posts, latest date first as raw
/// strings (posts with equal dates in their stored order), each shown with
/// its date cut to its first ten characters.
pub fn list_for_home(docs: &Vec<Document>) -> (r: Result<Vec<PostWithId>, StoreError>)
    ensures
        all_hold_posts(docs@) ==> (r matches Ok(v) && exists|s: Seq<PostWithIdView>|
            {
                &&& s.to_multiset() == stored_posts(docs@).to_multiset()
                &&& sorted_by_date_desc(s)
                &&& forall|d: Seq<char>| #[trigger] dated(s, d) == dated(stored_posts(docs@), d)
                &&& post_views(v@) == s.map_values(|p: PostWithIdView| shown(p))
            }),
        !all_hold_posts(docs@) ==> r == Err::<Vec<PostWithId>, StoreError>(
            StoreError::StoreProtocolError,
        ),
{
    let posts = posts_from_documents(docs)?;
    let sorted = sort_by_date_desc(posts);
    let shown_posts = with_display_dates(sorted);
    Ok(shown_posts)
}

/// A post read for its own page, with its date cut to its first ten
/// characters; `None` where no post has the identifier.
pub fn shown_post(found: Option<Document>) -> (r: Result<Option<Post>, StoreError>)
    ensures
        found is None ==> r matches Ok(None),
        found matches Some(d) ==> (match post_of(d) {
            Some(v) => (r matches Ok(Some(p)) && p@ == (PostView { date: display_date_of(v.date), ..v })),
            None => r == Err::<Option<Post>, StoreError>(StoreError::StoreProtocolError),
        }),
{
    match found {
        None => Ok(None),
        Some(d) => {
            let p = post_from_document(&d)?;
            let date = display_date(&p.date);
            Ok(Some(Post { title: p.title, body: p.body, author: p.author, date }))
        },
    }
}

/// What `url::form_urlencoded::parse` yields for a request body: its
/// name/value pairs, percent-decoded, in order.
pub uninterp spec fn form_pairs(input: Seq<u8>) -> Seq<(Seq<char>, Seq<char>)>;

/// Relies on `url::form_urlencoded::parse`: the decoded name/value pairs of an
/// `application/x-www-form-urlencoded` body, in order; an empty body has none.
#[verifier::external_body]
fn parse_form(input: &[u8]) -> (r: Vec<(String, String)>)
    ensures
        r@.len() == form_pairs(input@).len(),
        forall|i: int|
            0 <= i < r@.len() ==> (#[trigger] r@[i]).0@ == form_pairs(input@)[i].0 && r@[i].1@
                == form_pairs(input@)[i].1,
        input@.len() == 0 ==> r@.len() == 0,
{
    url::form_urlencoded::parse(input).map(|(k, v)| (k.into_owned(), v.into_owned())).collect()
}

/// Relies on `chrono::Local::now` and `chrono::DateTime`'s `Display`: the
/// server's local wall-clock time as text (date and time, a space, the
/// offset), which is never empty.
#[verifier::external_body]
fn local_time_now() -> (r: String)
    ensures
        r@.len() > 0,
{
    chrono::Local::now().to_string()
}

/// Failures of reading a submitted post.
#[derive(Debug, Clone, Copy, PartialEq, Eq, Structural)]
pub enum FormError {
    /// The form holds fewer than two fields: title, then body.
    MissingField,
}

/// The post that a submitted form describes: the value of its first field is
/// the title, that of its second the body.
pub fn post_from_form(pairs: &Vec<(String, String)>, author: LoggedInUser, date: String) -> (r: Result<Post, FormError>)
    ensures
        pairs@.len() >= 2 ==> (r matches Ok(p) && p@ == (PostView {
            title: pairs@[0].1@,
            body: pairs@[1].1@,
            author: author.0@,
            date: date@,
        })),
        pairs@.len() < 2 ==> r == Err::<Post, FormError>(FormError::MissingField),
{
    if pairs.len() < 2 {
        return Err(FormError::MissingField);
    }
    let title = pairs[0].1.clone();
    let body = pairs[1].1.clone();
    Ok(Post { title, body, author: author.0, date })
}

/// `d` stores a post with the given title, body and author, and some date.
pub open spec fn dated_post_document(
    d: Document,
    title: Seq<char>,
    body: Seq<char>,
    author: Seq<char>,
) -> bool {
    exists|date: Seq<char>|
        date.len() > 0 && #[trigger] holds_text_fields(d, post_fields(title, body, author, date))
}

/// A new post by the logged-in `user` from a submitted form body, dated with
/// the server's local time: the document to store.
pub fn new_post(user: LoggedInUser, form: &String) -> (r: Result<Document, FormError>)
    ensures
        form_pairs(encode_utf8(form@)).len() >= 2 ==> r is Ok,
        r matches Ok(d) ==> dated_post_document(
            d,
            form_pairs(encode_utf8(form@))[0].1,
            form_pairs(encode_utf8(form@))[1].1,
            user.0@,
        ),
        form_pairs(encode_utf8(form@)).len() < 2 ==> r == Err::<Document, FormError>(
            FormError::MissingField,
        ),
{
    let ghost author = user.0@;
    let ghost fields = form_pairs(encode_utf8(form@));
    let pairs = parse_form(form.as_str().as_bytes());
    let date = local_time_now();
    let ghost date_view = date@;
    let post = match post_from_form(&pairs, user, date) {
        Ok(p) => p,
        Err(e) => return Err(e),
    };
    assert(pairs@[0].1@ == fields[0].1 && pairs@[1].1@ == fields[1].1);
    let d = post_document(&post);
    assert(post_fields(fields[0].1, fields[1].1, author, date_view) =~= seq![
        (title_key(), post.title@),
        (body_key(), post.body@),
        (author_key(), post.author@),
        (date_key(), post.date@),
    ]);
    assert(holds_text_fields(d, post_fields(fields[0].1, fields[1].1, author, date_view)));
    assert(dated_post_document(d, fields[0].1, fields[1].1, author));
    Ok(d)
}

/// A post created from a form reads back, on its own page, with the title,
/// body and author it was created with, and a date that is not empty.
pub proof fn lemma_created_post_reads_back(d: Document, title: Seq<char>, body: Seq<char>, author: Seq<char>)
    requires
        dated_post_document(d, title, body, author),
    ensures
        post_of(d) matches Some(v) && v.title == title && v.body == body && v.author == author
            && display_date_of(v.date).len() > 0,
{
    let date = choose|date: Seq<char>|
        date.len() > 0 && #[trigger] holds_text_fields(d, post_fields(title, body, author, date));
    let post = Post {
        title: d.entries@[0].1->Str_0,
        body: d.entries@[1].1->Str_0,
        author: d.entries@[2].1->Str_0,
        date: d.entries@[3].1->Str_0,
    };
    lemma_stored_post_reads_back(post, d);
}

} // verus!
