//! The upload of an exported clip to the autopost service, as a request plan:
//! where it goes, the clip part, and the text fields of the multipart form in
//! the order they are sent. The caller reads the clip and sends the request.
use vstd::prelude::*;

verus! {

/// One text field of the form.
pub struct FormField {
    pub name: String,
    pub value: String,
}

/// Mathematical form of a [`FormField`].
pub struct FormFieldView {
    pub name: Seq<char>,
    pub value: Seq<char>,
}

impl DeepView for FormField {
    type V = FormFieldView;

    open spec fn deep_view(&self) -> FormFieldView {
        FormFieldView { name: self.name@, value: self.value@ }
    }
}

/// The field `name` holding `value`.
pub open spec fn field(name: Seq<char>, value: Seq<char>) -> FormFieldView {
    FormFieldView { name, value }
}

/// The request that uploads a clip.
pub struct AutopostRequest {
    /// The endpoint posted to, with the bearer token and `Accept: application/json`.
    pub url: String,
    /// The form part holding the clip's bytes.
    pub part_name: String,
    /// The file name the clip is sent under.
    pub file_name: String,
    /// The clip's MIME type.
    pub mime: String,
    /// The text fields, after the clip part, in order.
    pub fields: Vec<FormField>,
}

/// The file name a clip is sent under: the last component of its path, or
/// `clip.mp4` when the path has none.
pub open spec fn clip_file_name(found: Option<Seq<char>>) -> Seq<char> {
    match found {
        Some(n) => n,
        None => "clip.mp4"@,
    }
}

/// One field per item of an optional list, all under `name`.
pub open spec fn repeated(name: Seq<char>, items: Option<Seq<Seq<char>>>) -> Seq<FormFieldView> {
    match items {
        Some(v) => v.map_values(|x: Seq<char>| field(name, x)),
        None => seq![],
    }
}

/// A field when the value is given.
pub open spec fn optional(name: Seq<char>, value: Option<Seq<char>>) -> Seq<FormFieldView> {
    match value {
        Some(v) => seq![field(name, v)],
        None => seq![],
    }
}

/// The text fields: the title, then the description, privacy and publication
/// time when given, then one `tags[]` field per tag and one `services[]` field
/// per service, in order.
pub open spec fn form_fields(
    title: Seq<char>,
    description: Option<Seq<char>>,
    tags: Option<Seq<Seq<char>>>,
    privacy: Option<Seq<char>>,
    services: Option<Seq<Seq<char>>>,
    publish_at: Option<Seq<char>>,
) -> Seq<FormFieldView> {
    seq![field("title"@, title)]
        + optional("description"@, description)
        + optional("privacy"@, privacy)
        + optional("publish_at"@, publish_at)
        + repeated("tags[]"@, tags)
        + repeated("services[]"@, services)
}

/// The characters of an optional string.
pub open spec fn opt_view(o: Option<String>) -> Option<Seq<char>> {
    match o {
        Some(s) => Some(s@),
        None => None,
    }
}

/// The characters of each string of an optional list.
pub open spec fn opt_list_view(o: Option<Vec<String>>) -> Option<Seq<Seq<char>>> {
    match o {
        Some(v) => Some(v@.map_values(|s: String| s@)),
        None => None,
    }
}

/// The characters of a path after its last `/` (the whole path when it has none).
pub open spec fn after_last_slash(p: Seq<char>) -> Seq<char>
    decreases p.len(),
{
    if p.len() == 0 {
        p
    } else if p.last() == '/' {
        Seq::empty()
    } else {
        after_last_slash(p.drop_last()).push(p.last())
    }
}

/// Whether a path is written in the syntax every platform reads alike: no `\`,
/// no `:`, and not starting with `//`.
pub open spec fn portable_path(p: Seq<char>) -> bool {
    !p.contains('\\') && !p.contains(':') && !(p.len() >= 2 && p[0] == '/' && p[1] == '/')
}

/// The last component of a portable path whose part after the last `/` is a
/// plain name (not empty, `.` or `..`). `None` for any other path.
pub open spec fn plain_file_name(p: Seq<char>) -> Option<Seq<char>> {
    let last = after_last_slash(p);
    if portable_path(p) && last.len() > 0 && last != "."@ && last != ".."@ {
        Some(last)
    } else {
        None
    }
}

/// Whether a portable path ends in the parent component `..`.
pub open spec fn ends_in_parent(p: Seq<char>) -> bool {
    portable_path(p) && after_last_slash(p) == ".."@
}

/// Calls `std::path::Path::file_name` on the path and converts the name to a
/// `String`. Its documentation gives the path's final component, components
/// being separated by `/` (and on Windows also by `\`, after an optional prefix
/// such as `C:` or `\\server\share`), with repeated separators and `.` in
/// between ignored. So for a path in the syntax all platforms share, the name
/// is the part after the last `/`, and for one that terminates in `..` there is
/// none, as the documentation says. What other paths give depends on the
/// platform or is not documented (the empty path), and is not claimed here.
#[verifier::external_body]
fn path_file_name(path: &str) -> (name: Option<String>)
    ensures
        plain_file_name(path@) is Some ==> name.deep_view() == plain_file_name(path@),
        ends_in_parent(path@) ==> name is None,
{
    std::path::Path::new(path).file_name().map(|n| n.to_string_lossy().to_string())
}

fn push_field(v: &mut Vec<FormField>, name: &str, value: String)
    ensures
        final(v).deep_view() == old(v).deep_view().push(field(name@, value@)),
{
    let ghost before = v.deep_view();
    v.push(FormField { name: String::from_str(name), value });
    assert(v.deep_view() =~= before.push(field(name@, value@)));
}

fn push_optional(v: &mut Vec<FormField>, name: &str, value: Option<String>)
    ensures
        final(v).deep_view() == old(v).deep_view() + optional(name@, opt_view(value)),
{
    let ghost before = v.deep_view();
    match value {
        Some(x) => push_field(v, name, x),
        None => {},
    }
    assert(v.deep_view() =~= before + optional(name@, opt_view(value)));
}

fn push_repeated(v: &mut Vec<FormField>, name: &str, items: Option<Vec<String>>)
    ensures
        final(v).deep_view() == old(v).deep_view() + repeated(name@, opt_list_view(items)),
{
    let ghost before = v.deep_view();
    match items {
        Some(list) => {
            let ghost all = list@.map_values(|s: String| s@);
            let mut i: usize = 0;
            while i < list.len()
                invariant
                    i <= list.len(),
                    all == list@.map_values(|s: String| s@),
                    v.deep_view() == before + all.take(i as int).map_values(|x: Seq<char>| field(name@, x)),
                decreases list.len() - i,
            {
                let ghost prev = v.deep_view();
                push_field(v, name, list[i].clone());
                i = i + 1;
                assert(all.take(i as int) =~= all.take(i - 1).push(all[i - 1]));
                assert(v.deep_view() =~= before + all.take(i as int).map_values(|x: Seq<char>| field(name@, x)));
            }
            assert(all.take(list.len() as int) =~= all);
            assert(v.deep_view() =~= before + repeated(name@, opt_list_view(Some(list))));
        },
        None => {
            assert(v.deep_view() =~= before + repeated(name@, opt_list_view(items)));
        },
    }
}

/// The request uploading a clip whose path has the last component `found`
/// (see [`autopost_file_name`]), with the given form values.
pub fn autopost_request(
    found: Option<String>,
    title: String,
    description: Option<String>,
    tags: Option<Vec<String>>,
    privacy: Option<String>,
    services: Option<Vec<String>>,
    publish_at: Option<String>,
) -> (r: AutopostRequest)
    ensures
        r.url@ == "https://streamsnipe.live/api/autopost/posts"@,
        r.part_name@ == "video"@,
        r.file_name@ == clip_file_name(opt_view(found)),
        r.mime@ == "video/mp4"@,
        r.fields.deep_view() == form_fields(title@, opt_view(description), opt_list_view(tags), opt_view(privacy),
            opt_list_view(services), opt_view(publish_at)),
{
    let ghost spec_fields = form_fields(title@, opt_view(description), opt_list_view(tags), opt_view(privacy),
        opt_list_view(services), opt_view(publish_at));
    let file_name = match found {
        Some(n) => n,
        None => String::from_str("clip.mp4"),
    };
    let mut fields: Vec<FormField> = Vec::new();
    push_field(&mut fields, "title", title);
    push_optional(&mut fields, "description", description);
    push_optional(&mut fields, "privacy", privacy);
    push_optional(&mut fields, "publish_at", publish_at);
    push_repeated(&mut fields, "tags[]", tags);
    push_repeated(&mut fields, "services[]", services);
    assert(fields.deep_view() =~= spec_fields);
    AutopostRequest {
        url: String::from_str("https://streamsnipe.live/api/autopost/posts"),
        part_name: String::from_str("video"),
        file_name,
        mime: String::from_str("video/mp4"),
        fields,
    }
}

/// The request uploading the clip at `file_path` with the given form values:
/// as [`autopost_request`] makes it for the last component of the path as the
/// platform reads it (`Path::file_name`). For a path in the syntax all
/// platforms share ([`plain_file_name`]) that is the part after the last `/`;
/// one ending in `..` has none, and the clip is named `clip.mp4`.
pub fn autopost_submit(
    file_path: &str,
    title: String,
    description: Option<String>,
    tags: Option<Vec<String>>,
    privacy: Option<String>,
    services: Option<Vec<String>>,
    publish_at: Option<String>,
) -> (r: AutopostRequest)
    ensures
        r.url@ == "https://streamsnipe.live/api/autopost/posts"@,
        r.part_name@ == "video"@,
        r.mime@ == "video/mp4"@,
        r.fields.deep_view() == form_fields(title@, opt_view(description), opt_list_view(tags), opt_view(privacy),
            opt_list_view(services), opt_view(publish_at)),
        plain_file_name(file_path@) matches Some(n) ==> r.file_name@ == n,
        ends_in_parent(file_path@) ==> r.file_name@ == "clip.mp4"@,
{
    let found = path_file_name(file_path);
    autopost_request(found, title, description, tags, privacy, services, publish_at)
}

} // verus!

verus! {

/// The values sent under field name `name`, in order.
pub open spec fn values_named(fields: Seq<FormFieldView>, name: Seq<char>) -> Seq<Seq<char>> {
    fields.filter(|f: FormFieldView| f.name == name).map_values(|f: FormFieldView| f.value)
}

/// The values of an optional one, as a sequence of none or one.
pub open spec fn given(v: Option<Seq<char>>) -> Seq<Seq<char>> {
    match v {
        Some(x) => seq![x],
        None => seq![],
    }
}

/// The values of an optional list.
pub open spec fn given_list(v: Option<Seq<Seq<char>>>) -> Seq<Seq<char>> {
    match v {
        Some(x) => x,
        None => seq![],
    }
}

proof fn filter_keeps_all<A>(s: Seq<A>, p: spec_fn(A) -> bool)
    requires
        forall|i: int| 0 <= i < s.len() ==> p(#[trigger] s[i]),
    ensures
        s.filter(p) == s,
    decreases s.len(),
{
    if s.len() > 0 {
        filter_keeps_all(s.drop_last(), p);
        assert(s =~= s.drop_last().push(s.last()));
        s.drop_last().lemma_filter_push(s.last(), p);
    } else {
        assert(s.filter(p) =~= s) by { reveal(Seq::filter); }
    }
}

proof fn filter_keeps_none<A>(s: Seq<A>, p: spec_fn(A) -> bool)
    requires
        forall|i: int| 0 <= i < s.len() ==> !p(#[trigger] s[i]),
    ensures
        s.filter(p) == Seq::<A>::empty(),
    decreases s.len(),
{
    if s.len() > 0 {
        filter_keeps_none(s.drop_last(), p);
        assert(s =~= s.drop_last().push(s.last()));
        s.drop_last().lemma_filter_push(s.last(), p);
    } else {
        assert(s.filter(p) =~= Seq::<A>::empty()) by { reveal(Seq::filter); }
    }
}

/// The field names the form uses.
pub open spec fn form_field_name(n: Seq<char>) -> bool {
    n == "title"@ || n == "description"@ || n == "privacy"@ || n == "publish_at"@ || n == "tags[]"@ || n == "services[]"@
}

/// The part of the form under one field name, when every field of a piece is
/// under `piece_name`.
proof fn values_of_piece(piece: Seq<FormFieldView>, piece_name: Seq<char>, name: Seq<char>)
    requires
        forall|i: int| 0 <= i < piece.len() ==> (#[trigger] piece[i]).name == piece_name,
    ensures
        values_named(piece, name) == if piece_name == name { piece.map_values(|f: FormFieldView| f.value) } else { seq![] },
{
    let p = |f: FormFieldView| f.name == name;
    if piece_name == name {
        filter_keeps_all(piece, p);
    } else {
        filter_keeps_none(piece, p);
        assert(piece.filter(p).map_values(|f: FormFieldView| f.value) =~= Seq::<Seq<char>>::empty());
    }
}

/// The form sends the title first, and under each field name exactly what was
/// given for it, in order: the title under `title`, the description,
/// privacy and publication time (when given) under `description`, `privacy`
/// and `publish_at`, each tag under `tags[]` and each service under
/// `services[]`; it uses no other field names.
#[verifier::rlimit(40)]
pub proof fn form_sends_each_value_under_its_name(
    title: Seq<char>,
    description: Option<Seq<char>>,
    tags: Option<Seq<Seq<char>>>,
    privacy: Option<Seq<char>>,
    services: Option<Seq<Seq<char>>>,
    publish_at: Option<Seq<char>>,
)
    ensures ({
        let ff = form_fields(title, description, tags, privacy, services, publish_at);
        &&& ff[0] == (FormFieldView { name: "title"@, value: title })
        &&& values_named(ff, "title"@) == seq![title]
        &&& values_named(ff, "description"@) == given(description)
        &&& values_named(ff, "privacy"@) == given(privacy)
        &&& values_named(ff, "publish_at"@) == given(publish_at)
        &&& values_named(ff, "tags[]"@) == given_list(tags)
        &&& values_named(ff, "services[]"@) == given_list(services)
        &&& forall|i: int| 0 <= i < ff.len() ==> form_field_name(#[trigger] ff[i].name)
    }),
{
    reveal_strlit("title");
    reveal_strlit("description");
    reveal_strlit("privacy");
    reveal_strlit("publish_at");
    reveal_strlit("tags[]");
    reveal_strlit("services[]");
    let names = seq!["title"@, "description"@, "privacy"@, "publish_at"@, "tags[]"@, "services[]"@];
    assert("title"@[0] != "description"@[0] && "title"@[0] != "privacy"@[0] && "title"@[0] != "publish_at"@[0]
        && "title"@[1] != "tags[]"@[1] && "title"@[0] != "services[]"@[0]);
    assert("description"@[0] != "privacy"@[0] && "description"@[0] != "publish_at"@[0]
        && "description"@[0] != "tags[]"@[0] && "description"@[0] != "services[]"@[0]);
    assert("privacy"@[1] != "publish_at"@[1] && "privacy"@[0] != "tags[]"@[0] && "privacy"@[0] != "services[]"@[0]);
    assert("publish_at"@[0] != "tags[]"@[0] && "publish_at"@[0] != "services[]"@[0]);
    assert("tags[]"@[0] != "services[]"@[0]);
    let a = seq![field("title"@, title)];
    let b = optional("description"@, description);
    let c = optional("privacy"@, privacy);
    let d = optional("publish_at"@, publish_at);
    let e = repeated("tags[]"@, tags);
    let g = repeated("services[]"@, services);
    let ff = form_fields(title, description, tags, privacy, services, publish_at);
    assert(ff == a + b + c + d + e + g);
    assert forall|i: int| 0 <= i < e.len() implies (#[trigger] e[i]).name == "tags[]"@ by {}
    assert forall|i: int| 0 <= i < g.len() implies (#[trigger] g[i]).name == "services[]"@ by {}
    assert(a.map_values(|f: FormFieldView| f.value) =~= seq![title]);
    assert(b.map_values(|f: FormFieldView| f.value) =~= given(description));
    assert(c.map_values(|f: FormFieldView| f.value) =~= given(privacy));
    assert(d.map_values(|f: FormFieldView| f.value) =~= given(publish_at));
    assert(e.map_values(|f: FormFieldView| f.value) =~= given_list(tags));
    assert(g.map_values(|f: FormFieldView| f.value) =~= given_list(services));
    let vf = |f: FormFieldView| f.value;
    assert forall|k: int| 0 <= k < names.len() implies values_named(ff, #[trigger] names[k]) == (
        if k == 0 { seq![title] } else if k == 1 { given(description) } else if k == 2 { given(privacy) }
        else if k == 3 { given(publish_at) } else if k == 4 { given_list(tags) } else { given_list(services) }) by {
        let name = names[k];
        let p = |f: FormFieldView| f.name == name;
        values_of_piece(a, "title"@, name);
        values_of_piece(b, "description"@, name);
        values_of_piece(c, "privacy"@, name);
        values_of_piece(d, "publish_at"@, name);
        values_of_piece(e, "tags[]"@, name);
        values_of_piece(g, "services[]"@, name);
        Seq::filter_distributes_over_add(a, b, p);
        Seq::filter_distributes_over_add(a + b, c, p);
        Seq::filter_distributes_over_add(a + b + c, d, p);
        Seq::filter_distributes_over_add(a + b + c + d, e, p);
        Seq::filter_distributes_over_add(a + b + c + d + e, g, p);
        let fa = a.filter(p);
        let fb = b.filter(p);
        let fc = c.filter(p);
        let fd = d.filter(p);
        let fe = e.filter(p);
        let fg = g.filter(p);
        assert((fa + fb + fc + fd + fe + fg).map_values(vf) =~= fa.map_values(vf) + fb.map_values(vf)
            + fc.map_values(vf) + fd.map_values(vf) + fe.map_values(vf) + fg.map_values(vf));
    }
    assert(names[0] == "title"@ && names[1] == "description"@ && names[2] == "privacy"@);
    assert(names[3] == "publish_at"@ && names[4] == "tags[]"@ && names[5] == "services[]"@);
    assert forall|i: int| 0 <= i < ff.len() implies form_field_name(#[trigger] ff[i].name) by {
        let ab = a.len() + b.len();
        if i < a.len() {
        } else if i < ab {
            assert(ff[i] == b[i - a.len()]);
        } else if i < ab + c.len() {
            assert(ff[i] == c[i - ab]);
        } else if i < ab + c.len() + d.len() {
            assert(ff[i] == d[i - ab - c.len()]);
        } else if i < ab + c.len() + d.len() + e.len() {
            assert(ff[i] == e[i - ab - c.len() - d.len()]);
        } else {
            assert(ff[i] == g[i - ab - c.len() - d.len() - e.len()]);
        }
    }
}

} // verus!
