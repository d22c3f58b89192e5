use poem_ext::responses::merge_schemas::{
    merge_meta_media_types, merge_meta_responses, MediaType, ResponseDescriptor, Schema,
};

type Descriptor = ResponseDescriptor<&'static str, &'static str>;

const JSON: &str = "application/json; charset=utf-8";

fn descriptor(status: u16, description: &str) -> Descriptor {
    ResponseDescriptor {
        status: Some(status),
        description: description.to_string(),
        content: Vec::new(),
        headers: Vec::new(),
    }
}

fn with_body(status: u16, description: &str, schema: &'static str) -> Descriptor {
    let mut d = descriptor(status, description);
    d.content.push(MediaType {
        content_type: JSON.to_string(),
        schema: Schema::Plain(schema),
    });
    d
}

fn sorted(mut responses: Vec<Descriptor>) -> Vec<Descriptor> {
    responses.sort_by_key(|r| r.status);
    responses
}

#[test]
fn mod_test_response_schemas() {
    // The endpoint's own responses, then the authorization layer's, then the
    // library's error responses.
    let responses = vec![
        descriptor(200, "Ok"),
        descriptor(404, "FooNotFound"),
        descriptor(401, "Unauthorized"),
        descriptor(403, "Forbidden"),
        descriptor(404, "BarNotFound"),
        descriptor(422, "Unprocessable Content"),
        descriptor(500, "Internal Server Error"),
    ];
    let merged = sorted(merge_meta_responses(responses));
    let expected = [
        (200, "Ok"),
        (401, "Unauthorized"),
        (403, "Forbidden"),
        (
            404,
            "There are multiple possible responses with this status code:\n- FooNotFound\n- BarNotFound",
        ),
        (422, "Unprocessable Content"),
        (500, "Internal Server Error"),
    ];
    assert_eq!(merged.len(), expected.len());
    for (resp, (s, d)) in merged.iter().zip(expected) {
        assert_eq!(resp.status, Some(s));
        assert_eq!(resp.description, d);
    }
}

#[test]
fn merge_two_descriptions_of_one_status() {
    let merged = merge_meta_responses(vec![descriptor(404, "Foo"), descriptor(404, "Bar")]);
    assert_eq!(merged.len(), 1);
    assert_eq!(merged[0].status, Some(404));
    assert!(merged[0].description.contains("- Foo"));
    assert!(merged[0].description.contains("- Bar"));
    assert_eq!(
        merged[0].description,
        "There are multiple possible responses with this status code:\n- Foo\n- Bar"
    );
}

#[test]
fn merge_empty_gives_empty() {
    assert!(merge_meta_responses(Vec::<Descriptor>::new()).is_empty());
    assert!(merge_meta_media_types(Vec::<MediaType<&str>>::new()).is_empty());
}

#[test]
fn merge_single_descriptor_is_identity() {
    let mut d = with_body(409, "Conflict", "Conflict");
    d.headers.push("x-request-id");
    let merged = merge_meta_responses(vec![d.clone_descriptor()]);
    assert_eq!(merged, vec![d]);
}

#[test]
fn merge_keeps_distinct_statuses_apart() {
    let merged = sorted(merge_meta_responses(vec![
        with_body(201, "Created", "Empty"),
        with_body(409, "Conflict", "Conflict"),
        descriptor(200, "Ok"),
    ]));
    assert_eq!(
        merged,
        vec![
            descriptor(200, "Ok"),
            with_body(201, "Created", "Empty"),
            with_body(409, "Conflict", "Conflict"),
        ]
    );
}

#[test]
fn merge_unions_content_by_media_type() {
    let mut text = with_body(401, "Unauthorized", "Text");
    text.content[0].content_type = "text/plain".to_string();
    text.headers.push("www-authenticate");
    let mut second = with_body(401, "Expired", "Expired");
    second.headers.push("retry-after");
    let merged = merge_meta_responses(vec![with_body(401, "Missing", "Missing"), text, second]);
    assert_eq!(merged.len(), 1);
    let r = &merged[0];
    assert_eq!(r.status, Some(401));
    assert_eq!(
        r.description,
        "There are multiple possible responses with this status code:\n- Missing\n- Unauthorized\n- Expired"
    );
    assert_eq!(r.headers, vec!["www-authenticate", "retry-after"]);
    let mut content: Vec<&MediaType<&str>> = r.content.iter().collect();
    content.sort_by(|a, b| a.content_type.cmp(&b.content_type));
    assert_eq!(content.len(), 2);
    assert_eq!(content[0].content_type, JSON);
    assert_eq!(
        content[0].schema,
        Schema::OneOf(vec![Schema::Plain("Missing"), Schema::Plain("Expired")])
    );
    assert_eq!(content[1].content_type, "text/plain");
    assert_eq!(content[1].schema, Schema::Plain("Text"));
}

#[test]
fn merge_media_types_groups_by_content_type() {
    let entry = |content_type: &str, schema: &'static str| MediaType {
        content_type: content_type.to_string(),
        schema: Schema::Plain(schema),
    };
    let mut merged = merge_meta_media_types(vec![
        entry("a", "A1"),
        entry("b", "B"),
        entry("a", "A2"),
        entry("a", "A3"),
    ]);
    merged.sort_by(|x, y| x.content_type.cmp(&y.content_type));
    assert_eq!(
        merged,
        vec![
            MediaType {
                content_type: "a".to_string(),
                schema: Schema::OneOf(vec![
                    Schema::Plain("A1"),
                    Schema::Plain("A2"),
                    Schema::Plain("A3"),
                ]),
            },
            entry("b", "B"),
        ]
    );
}

#[test]
fn merge_default_status_is_its_own_group() {
    let mut default = descriptor(200, "Default");
    default.status = None;
    let mut other = descriptor(200, "Other default");
    other.status = None;
    let merged = sorted(merge_meta_responses(vec![default, descriptor(200, "Ok"), other]));
    assert_eq!(merged.len(), 2);
    assert_eq!(merged[0].status, None);
    assert_eq!(
        merged[0].description,
        "There are multiple possible responses with this status code:\n- Default\n- Other default"
    );
    assert_eq!(merged[1], descriptor(200, "Ok"));
}

trait CloneDescriptor {
    fn clone_descriptor(&self) -> Self;
}

impl CloneDescriptor for Descriptor {
    fn clone_descriptor(&self) -> Self {
        ResponseDescriptor {
            status: self.status,
            description: self.description.clone(),
            content: self
                .content
                .iter()
                .map(|m| MediaType {
                    content_type: m.content_type.clone(),
                    schema: clone_schema(&m.schema),
                })
                .collect(),
            headers: self.headers.clone(),
        }
    }
}

fn clone_schema(s: &Schema<&'static str>) -> Schema<&'static str> {
    match s {
        Schema::Plain(x) => Schema::Plain(x),
        Schema::OneOf(v) => Schema::OneOf(v.iter().map(clone_schema).collect()),
    }
}
