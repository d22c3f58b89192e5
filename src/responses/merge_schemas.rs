//! Merging of response descriptors that document the same status code.
//!
//! An endpoint's responses may be declared in several places (the endpoint
//! itself, an authorization layer, a generic error path). Descriptors that
//! share a status code are merged into one, so that no source's documentation
//! or content schema is lost.

use itertools::Itertools;
use vstd::prelude::*;

verus! {

/// A reference to the schema of a response body: either a schema of the
/// documentation tooling, or a schema satisfied by any one of several.
#[derive(Debug, PartialEq, Eq)]
pub enum Schema<S> {
    /// A single schema.
    Plain(S),
    /// Satisfied by any one of the contained schemas.
    OneOf(Vec<Schema<S>>),
}

/// The body that a response has for one media type.
#[derive(Debug, PartialEq, Eq)]
pub struct MediaType<S> {
    /// The media type, e.g. `application/json; charset=utf-8`.
    pub content_type: String,
    /// The schema of the body.
    pub schema: Schema<S>,
}

/// One documented response of an endpoint.
#[derive(Debug, PartialEq, Eq)]
pub struct ResponseDescriptor<S, H> {
    /// The HTTP status code; `None` stands for the default response.
    pub status: Option<u16>,
    /// Human-readable description.
    pub description: String,
    /// The bodies, one entry per media type.
    pub content: Vec<MediaType<S>>,
    /// The documented headers.
    pub headers: Vec<H>,
}

/// The entries of `items` that have the media type `content_type`, in order.
pub open spec fn with_content_type<S>(items: Seq<MediaType<S>>, content_type: Seq<char>) -> Seq<MediaType<S>> {
    items.filter(|m: MediaType<S>| m.content_type@ == content_type)
}

/// `m` is the merge of `group`, a non-empty set of entries of one media
/// type: a single entry is kept as it is; several become one entry whose
/// schema is satisfied by any of theirs, in their order.
pub open spec fn merged_media_type<S>(group: Seq<MediaType<S>>, m: MediaType<S>) -> bool {
    if group.len() == 1 {
        m == group[0]
    } else {
        &&& group.len() > 1
        &&& m.content_type@ == group[0].content_type@
        &&& match m.schema {
            Schema::OneOf(v) => v@ == group.map_values(|e: MediaType<S>| e.schema),
            Schema::Plain(_) => false,
        }
    }
}

/// `output` holds exactly one entry per distinct media type of `input`,
/// each the merge of the entries of `input` of that media type.
pub open spec fn media_types_merged<S>(input: Seq<MediaType<S>>, output: Seq<MediaType<S>>) -> bool {
    &&& forall|i: int, j: int|
        0 <= i < j < output.len() ==> output[i].content_type@ != output[j].content_type@
    &&& forall|k: int|
        #![trigger input[k]]
        0 <= k < input.len() ==> exists|i: int|
            0 <= i < output.len() && output[i].content_type@ == input[k].content_type@
    &&& forall|i: int|
        0 <= i < output.len() ==> merged_media_type(
            with_content_type(input, output[i].content_type@),
            #[trigger] output[i],
        )
}

/// Every media type of `items` is the key of one of `groups`.
pub open spec fn keys_cover<S>(groups: Seq<(String, Vec<MediaType<S>>)>, items: Seq<MediaType<S>>) -> bool {
    forall|k: int|
        #![trigger items[k]]
        0 <= k < items.len() ==> exists|i: int|
            0 <= i < groups.len() && groups[i].0@ == items[k].content_type@
}

/// Relies on `Itertools::into_group_map_by`: the entries are grouped by
/// media type, each group keeps the order of the input, and the groups are
/// taken out of the resulting map in the map's own (unspecified) order.
#[verifier::external_body]
fn group_by_content_type<S>(items: Vec<MediaType<S>>) -> (r: Vec<(String, Vec<MediaType<S>>)>)
    ensures
        forall|i: int, j: int| 0 <= i < j < r.len() ==> r@[i].0@ != r@[j].0@,
        forall|i: int|
            0 <= i < r.len() ==> r@[i].1@.len() > 0 && r@[i].1@ == with_content_type(
                items@,
                r@[i].0@,
            ),
        keys_cover(r@, items@),
{
    items.into_iter().into_group_map_by(|m| m.content_type.clone()).into_iter().collect()
}

/// Merges a non-empty group of entries that share the media type
/// `content_type`.
fn merge_media_group<S>(content_type: String, group: Vec<MediaType<S>>) -> (m: MediaType<S>)
    requires
        group.len() > 0,
        forall|k: int| 0 <= k < group.len() ==> #[trigger] group[k].content_type@ == content_type@,
    ensures
        m.content_type@ == content_type@,
        merged_media_type(group@, m),
{
    let mut rest = group;
    if rest.len() == 1 {
        return rest.remove(0);
    }
    let ghost g0 = group@;
    let mut schemas: Vec<Schema<S>> = Vec::new();
    while rest.len() > 0
        invariant
            schemas.len() <= g0.len(),
            rest@ == g0.skip(schemas.len() as int),
            schemas@ == g0.take(schemas.len() as int).map_values(|e: MediaType<S>| e.schema),
        decreases rest.len(),
    {
        let ghost n = schemas.len() as int;
        let e = rest.remove(0);
        schemas.push(e.schema);
        assert(schemas@ =~= g0.take(n + 1).map_values(|e: MediaType<S>| e.schema));
        assert(rest@ =~= g0.skip(n + 1));
    }
    assert(g0.take(g0.len() as int) =~= g0);
    MediaType { content_type, schema: Schema::OneOf(schemas) }
}

/// Merges entries that share a media type: one entry per distinct media type
/// comes out. The order of the entries is not specified.
pub fn merge_meta_media_types<S>(meta_media_types: Vec<MediaType<S>>) -> (r: Vec<MediaType<S>>)
    ensures
        media_types_merged(meta_media_types@, r@),
{
    let ghost input = meta_media_types@;
    let groups = group_by_content_type(meta_media_types);
    let ghost gs = groups@;
    let mut groups = groups;
    let mut out: Vec<MediaType<S>> = Vec::new();
    while groups.len() > 0
        invariant
            out.len() + groups.len() == gs.len(),
            groups@ == gs.skip(out.len() as int),
            forall|i: int, j: int| 0 <= i < j < gs.len() ==> gs[i].0@ != gs[j].0@,
            forall|i: int|
                0 <= i < gs.len() ==> gs[i].1@.len() > 0 && gs[i].1@ == with_content_type(
                    input,
                    gs[i].0@,
                ),
            keys_cover(gs, input),
            forall|j: int|
                0 <= j < out.len() ==> out[j].content_type@ == gs[j].0@ && merged_media_type(
                    gs[j].1@,
                    #[trigger] out[j],
                ),
        decreases groups.len(),
    {
        let ghost n = out.len() as int;
        let (content_type, group) = groups.remove(0);
        assert(gs[n].1@ == group@);
        proof {
            broadcast use vstd::seq_lib::group_filter_ensures;

            assert forall|k: int| 0 <= k < group.len() implies #[trigger] group[k].content_type@
                == content_type@ by {
                assert(with_content_type(input, gs[n].0@)[k] == group[k]);
            }
        }
        let m = merge_media_group(content_type, group);
        out.push(m);
        assert(groups@ =~= gs.skip(n + 1));
    }
    assert forall|k: int| #![trigger input[k]] 0 <= k < input.len() implies exists|i: int|
        0 <= i < out.len() && out[i].content_type@ == input[k].content_type@ by {
        let i = choose|i: int| 0 <= i < gs.len() && gs[i].0@ == input[k].content_type@;
        assert(out[i].content_type@ == gs[i].0@);
    }
    assert forall|i: int| 0 <= i < out.len() implies merged_media_type(
        with_content_type(input, out[i].content_type@),
        #[trigger] out[i],
    ) by {
        assert(out[i].content_type@ == gs[i].0@);
    }
    out
}

/// The sentence that opens the description of a merged response.
pub open spec fn multiple_responses_intro() -> Seq<char> {
    "There are multiple possible responses with this status code:"@
}

/// The descriptions of `group` as a bullet list, each on a line of its own
/// that starts with `- `.
pub open spec fn bullet_list<S, H>(group: Seq<ResponseDescriptor<S, H>>) -> Seq<char>
    decreases group.len(),
{
    if group.len() == 0 {
        Seq::empty()
    } else {
        bullet_list(group.drop_last()) + "\n- "@ + group.last().description@
    }
}

/// The description of a merged response: the opening sentence, then the
/// descriptions of all members as a bullet list.
pub open spec fn merged_description<S, H>(group: Seq<ResponseDescriptor<S, H>>) -> Seq<char> {
    multiple_responses_intro() + bullet_list(group)
}

/// All content entries of `group`, in order.
pub open spec fn all_content<S, H>(group: Seq<ResponseDescriptor<S, H>>) -> Seq<MediaType<S>>
    decreases group.len(),
{
    if group.len() == 0 {
        Seq::empty()
    } else {
        all_content(group.drop_last()) + group.last().content@
    }
}

/// All headers of `group`, in order.
pub open spec fn all_headers<S, H>(group: Seq<ResponseDescriptor<S, H>>) -> Seq<H>
    decreases group.len(),
{
    if group.len() == 0 {
        Seq::empty()
    } else {
        all_headers(group.drop_last()) + group.last().headers@
    }
}

/// The descriptors of `items` with status `status`, in order.
pub open spec fn with_status<S, H>(items: Seq<ResponseDescriptor<S, H>>, status: Option<u16>) -> Seq<
    ResponseDescriptor<S, H>,
> {
    items.filter(|d: ResponseDescriptor<S, H>| d.status == status)
}

/// `r` is the merge of `group`, a non-empty set of descriptors of one status:
/// a single descriptor is kept as it is; several become one whose description
/// lists all of theirs, whose content merges all of theirs by media type, and
/// whose headers are all of theirs.
pub open spec fn merged_response<S, H>(group: Seq<ResponseDescriptor<S, H>>, r: ResponseDescriptor<S, H>) -> bool {
    if group.len() == 1 {
        r == group[0]
    } else {
        &&& group.len() > 1
        &&& r.status == group[0].status
        &&& r.description@ == merged_description(group)
        &&& media_types_merged(all_content(group), r.content@)
        &&& r.headers@ == all_headers(group)
    }
}

/// Every status of `items` is the key of one of `groups`.
pub open spec fn statuses_cover<S, H>(
    groups: Seq<(Option<u16>, Vec<ResponseDescriptor<S, H>>)>,
    items: Seq<ResponseDescriptor<S, H>>,
) -> bool {
    forall|k: int|
        #![trigger items[k]]
        0 <= k < items.len() ==> exists|i: int| 0 <= i < groups.len() && groups[i].0 == items[k].status
}

/// `output` holds exactly one descriptor per distinct status of `input`,
/// each the merge of the descriptors of `input` with that status.
pub open spec fn responses_merged<S, H>(
    input: Seq<ResponseDescriptor<S, H>>,
    output: Seq<ResponseDescriptor<S, H>>,
) -> bool {
    &&& forall|i: int, j: int| 0 <= i < j < output.len() ==> output[i].status != output[j].status
    &&& forall|k: int|
        #![trigger input[k]]
        0 <= k < input.len() ==> exists|i: int| 0 <= i < output.len() && output[i].status == input[k].status
    &&& forall|i: int|
        0 <= i < output.len() ==> merged_response(with_status(input, output[i].status), #[trigger] output[i])
}

/// Relies on `Itertools::into_group_map_by`: the descriptors are grouped by
/// status, each group keeps the order of the input, and the groups are taken
/// out of the resulting map in the map's own (unspecified) order.
#[verifier::external_body]
fn group_by_status<S, H>(items: Vec<ResponseDescriptor<S, H>>) -> (r: Vec<
    (Option<u16>, Vec<ResponseDescriptor<S, H>>),
>)
    ensures
        forall|i: int, j: int| 0 <= i < j < r.len() ==> r@[i].0 != r@[j].0,
        forall|i: int|
            0 <= i < r.len() ==> r@[i].1@.len() > 0 && r@[i].1@ == with_status(items@, r@[i].0),
        statuses_cover(r@, items@),
{
    items.into_iter().into_group_map_by(|d| d.status).into_iter().collect()
}

/// Merges a non-empty group of descriptors that share the status `status`.
fn merge_response_group<S, H>(status: Option<u16>, group: Vec<ResponseDescriptor<S, H>>) -> (r:
    ResponseDescriptor<S, H>)
    requires
        group.len() > 0,
        forall|k: int| 0 <= k < group.len() ==> #[trigger] group[k].status == status,
    ensures
        r.status == status,
        merged_response(group@, r),
{
    let mut rest = group;
    if rest.len() == 1 {
        return rest.remove(0);
    }
    let ghost g0 = group@;
    let mut description = String::from_str(
        "There are multiple possible responses with this status code:",
    );
    let mut content: Vec<MediaType<S>> = Vec::new();
    let mut headers: Vec<H> = Vec::new();
    let mut k: usize = 0;
    while rest.len() > 0
        invariant
            k <= g0.len() <= usize::MAX,
            rest@ == g0.skip(k as int),
            description@ == multiple_responses_intro() + bullet_list(g0.take(k as int)),
            content@ == all_content(g0.take(k as int)),
            headers@ == all_headers(g0.take(k as int)),
        decreases rest.len(),
    {
        let mut d = rest.remove(0);
        assert(g0.take(k + 1).drop_last() =~= g0.take(k as int));
        assert(d == g0[k as int]);
        description.append("\n- ");
        description.append(d.description.as_str());
        content.append(&mut d.content);
        headers.append(&mut d.headers);
        k = k + 1;
        assert(rest@ =~= g0.skip(k as int));
        assert(description@ =~= multiple_responses_intro() + bullet_list(g0.take(k as int)));
    }
    assert(g0.take(g0.len() as int) =~= g0);
    ResponseDescriptor {
        status,
        description,
        content: merge_meta_media_types(content),
        headers,
    }
}

/// Merges descriptors that document the same status code: one descriptor per
/// distinct status comes out. The order of the descriptors is not specified.
pub fn merge_meta_responses<S, H>(responses: Vec<ResponseDescriptor<S, H>>) -> (r: Vec<
    ResponseDescriptor<S, H>,
>)
    ensures
        responses_merged(responses@, r@),
{
    let ghost input = responses@;
    let groups = group_by_status(responses);
    let ghost gs = groups@;
    let mut groups = groups;
    let mut out: Vec<ResponseDescriptor<S, H>> = Vec::new();
    while groups.len() > 0
        invariant
            out.len() + groups.len() == gs.len(),
            groups@ == gs.skip(out.len() as int),
            forall|i: int, j: int| 0 <= i < j < gs.len() ==> gs[i].0 != gs[j].0,
            forall|i: int|
                0 <= i < gs.len() ==> gs[i].1@.len() > 0 && gs[i].1@ == with_status(input, gs[i].0),
            statuses_cover(gs, input),
            forall|j: int|
                0 <= j < out.len() ==> out[j].status == gs[j].0 && merged_response(
                    gs[j].1@,
                    #[trigger] out[j],
                ),
        decreases groups.len(),
    {
        let ghost n = out.len() as int;
        let (status, group) = groups.remove(0);
        assert(gs[n].1@ == group@);
        proof {
            broadcast use vstd::seq_lib::group_filter_ensures;

            assert forall|k: int| 0 <= k < group.len() implies #[trigger] group[k].status
                == status by {
                assert(with_status(input, gs[n].0)[k] == group[k]);
            }
        }
        let d = merge_response_group(status, group);
        out.push(d);
        assert(groups@ =~= gs.skip(n + 1));
    }
    assert forall|k: int| #![trigger input[k]] 0 <= k < input.len() implies exists|i: int|
        0 <= i < out.len() && out[i].status == input[k].status by {
        let i = choose|i: int| 0 <= i < gs.len() && gs[i].0 == input[k].status;
        assert(out[i].status == gs[i].0);
    }
    assert forall|i: int| 0 <= i < out.len() implies merged_response(
        with_status(input, out[i].status),
        #[trigger] out[i],
    ) by {
        assert(out[i].status == gs[i].0);
    }
    out
}

/// `s` is the schema `t`, or a choice among schemas of which `t` is one.
pub open spec fn schema_includes<S>(s: Schema<S>, t: Schema<S>) -> bool {
    s == t || match s {
        Schema::OneOf(v) => v@.contains(t),
        Schema::Plain(_) => false,
    }
}

/// `content` has an entry of the media type of `m` whose schema includes the
/// schema of `m`.
pub open spec fn content_includes<S>(content: Seq<MediaType<S>>, m: MediaType<S>) -> bool {
    exists|j: int|
        0 <= j < content.len() && content[j].content_type@ == m.content_type@ && schema_includes(
            #[trigger] content[j].schema,
            m.schema,
        )
}

/// Filtering a sequence in which exactly one element satisfies `pred` gives
/// that element alone.
proof fn lemma_filter_single<A>(s: Seq<A>, pred: spec_fn(A) -> bool, k: int)
    requires
        0 <= k < s.len(),
        pred(s[k]),
        forall|j: int| 0 <= j < s.len() && j != k ==> !pred(#[trigger] s[j]),
    ensures
        s.filter(pred) == seq![s[k]],
    decreases s.len(),
{
    reveal(Seq::filter);
    let rest = s.drop_last();
    if k == s.len() - 1 {
        assert(rest.filter(pred).len() == 0) by {
            lemma_filter_none(rest, pred);
        }
        assert(s.filter(pred) =~= seq![s[k]]);
    } else {
        lemma_filter_single(rest, pred, k);
    }
}

/// Filtering a sequence in which no element satisfies `pred` gives nothing.
proof fn lemma_filter_none<A>(s: Seq<A>, pred: spec_fn(A) -> bool)
    requires
        forall|j: int| 0 <= j < s.len() ==> !pred(#[trigger] s[j]),
    ensures
        s.filter(pred).len() == 0,
    decreases s.len(),
{
    reveal(Seq::filter);
    if s.len() > 0 {
        lemma_filter_none(s.drop_last(), pred);
    }
}

/// What filtering keeps comes from the filtered sequence.
proof fn lemma_filter_member<A>(s: Seq<A>, pred: spec_fn(A) -> bool, i: int)
    requires
        0 <= i < s.filter(pred).len(),
    ensures
        s.contains(s.filter(pred)[i]),
    decreases s.len(),
{
    reveal(Seq::filter);
    let rest = s.drop_last();
    if i < rest.filter(pred).len() {
        lemma_filter_member(rest, pred, i);
        let j = choose|j: int| 0 <= j < rest.len() && rest[j] == rest.filter(pred)[i];
        assert(s[j] == rest[j]);
    } else {
        assert(s[s.len() - 1] == s.filter(pred)[i]);
    }
}

/// Every content entry of a member of `group` is among the group's content.
proof fn lemma_all_content_contains<S, H>(group: Seq<ResponseDescriptor<S, H>>, k: int, l: int)
    requires
        0 <= k < group.len(),
        0 <= l < group[k].content.len(),
    ensures
        all_content(group).contains(group[k].content@[l]),
    decreases group.len(),
{
    let rest = group.drop_last();
    if k == group.len() - 1 {
        let c = group[k].content@;
        assert(all_content(group)[all_content(rest).len() + l] == c[l]);
    } else {
        lemma_all_content_contains(rest, k, l);
        let q = choose|q: int| 0 <= q < all_content(rest).len() && all_content(rest)[q] == group[k].content@[l];
        assert(all_content(group)[q] == all_content(rest)[q]);
    }
}

/// Merging media types loses no entry: each input entry's media type comes
/// out, with a schema that includes the entry's schema.
pub proof fn lemma_media_types_keep_content<S>(
    input: Seq<MediaType<S>>,
    output: Seq<MediaType<S>>,
    k: int,
)
    requires
        media_types_merged(input, output),
        0 <= k < input.len(),
    ensures
        content_includes(output, input[k]),
{
    broadcast use vstd::seq_lib::group_filter_ensures;

    let m = input[k];
    let j = choose|j: int| 0 <= j < output.len() && output[j].content_type@ == m.content_type@;
    let group = with_content_type(input, m.content_type@);
    assert(group.contains(m));
    let p = choose|p: int| 0 <= p < group.len() && group[p] == m;
    assert(merged_media_type(with_content_type(input, output[j].content_type@), output[j]));
    if group.len() == 1 {
        assert(output[j] == m);
    } else {
        let v = group.map_values(|e: MediaType<S>| e.schema);
        assert(v[p] == m.schema);
    }
    assert(schema_includes(output[j].schema, m.schema));
}

/// Merging responses keeps one descriptor per status, and loses no content:
/// for each content entry of each input descriptor, the merged descriptor of
/// its status has an entry of the same media type whose schema includes the
/// entry's schema.
pub proof fn lemma_merge_keeps_content<S, H>(
    input: Seq<ResponseDescriptor<S, H>>,
    output: Seq<ResponseDescriptor<S, H>>,
    k: int,
    l: int,
)
    requires
        responses_merged(input, output),
        0 <= k < input.len(),
        0 <= l < input[k].content.len(),
    ensures
        exists|i: int|
            0 <= i < output.len() && output[i].status == input[k].status && content_includes(
                #[trigger] output[i].content@,
                input[k].content@[l],
            ),
        forall|i: int, j: int| 0 <= i < j < output.len() ==> output[i].status != output[j].status,
{
    broadcast use vstd::seq_lib::group_filter_ensures;

    let d = input[k];
    let c = d.content@[l];
    let i = choose|i: int| 0 <= i < output.len() && output[i].status == d.status;
    let group = with_status(input, d.status);
    assert(group.contains(d));
    let p = choose|p: int| 0 <= p < group.len() && group[p] == d;
    assert(merged_response(with_status(input, output[i].status), output[i]));
    if group.len() == 1 {
        assert(output[i] == d);
        assert(schema_includes(output[i].content@[l].schema, c.schema));
    } else {
        lemma_all_content_contains(group, p, l);
        let all = all_content(group);
        let q = choose|q: int| 0 <= q < all.len() && all[q] == c;
        lemma_media_types_keep_content(all, output[i].content@, q);
    }
}

/// Merging invents no status: every merged descriptor documents a status
/// code that some input descriptor has.
pub proof fn lemma_merge_statuses_come_from_input<S, H>(
    input: Seq<ResponseDescriptor<S, H>>,
    output: Seq<ResponseDescriptor<S, H>>,
    i: int,
)
    requires
        responses_merged(input, output),
        0 <= i < output.len(),
    ensures
        exists|k: int| 0 <= k < input.len() && #[trigger] input[k].status == output[i].status,
{
    broadcast use vstd::seq_lib::group_filter_ensures;

    let status = output[i].status;
    let pred = |d: ResponseDescriptor<S, H>| d.status == status;
    assert(merged_response(with_status(input, status), output[i]));
    assert(input.filter(pred).len() > 0);
    lemma_filter_member(input, pred, 0);
    let k = choose|k: int| 0 <= k < input.len() && input[k] == input.filter(pred)[0];
    assert(input[k].status == status);
}

/// A descriptor whose status no other input descriptor has comes out of the
/// merge unchanged.
pub proof fn lemma_merge_single_is_identity<S, H>(
    input: Seq<ResponseDescriptor<S, H>>,
    output: Seq<ResponseDescriptor<S, H>>,
    k: int,
)
    requires
        responses_merged(input, output),
        0 <= k < input.len(),
        forall|j: int| 0 <= j < input.len() && j != k ==> #[trigger] input[j].status != input[k].status,
    ensures
        exists|i: int| 0 <= i < output.len() && #[trigger] output[i] == input[k],
{
    let d = input[k];
    let i = choose|i: int| 0 <= i < output.len() && output[i].status == d.status;
    let pred = |e: ResponseDescriptor<S, H>| e.status == d.status;
    lemma_filter_single(input, pred, k);
    assert(with_status(input, d.status) == seq![d]);
    assert(merged_response(with_status(input, output[i].status), output[i]));
    assert(output[i] == d);
}

} // verus!
