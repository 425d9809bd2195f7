//! Collecting the parts of an uploaded multipart form: the text fields are
//! gathered in a serde_json object, which becomes its JSON text; the file parts
//! become staging records.
use vstd::prelude::*;
use vstd::utf8::{decode_utf8, valid_utf8};
use vstd::std_specs::convert::FromSpecImpl;

verus! {

/// A file part of an upload, with the place it would be kept before upload.
#[derive(Debug, Clone)]
pub struct Tmpfile {
    pub name: String,
    pub tmp_path: String,
}

/// What is reported of an uploaded file: its name.
#[derive(Debug, Clone)]
pub struct UplodFile {
    pub filename: String,
}

/// The directory prefix under which uploaded files are staged.
pub open spec fn tmp_dir() -> Seq<char> {
    "./tmp/"@
}

/// `t` is the staging record of a file called `filename`.
pub open spec fn staged_as(t: Tmpfile, filename: Seq<char>) -> bool {
    &&& t.name@ == filename
    &&& t.tmp_path@ == tmp_dir() + filename
}

impl Tmpfile {
    /// The staging record of a file called `filename`: its path is `./tmp/` followed by the name.
    pub fn new(filename: &str) -> (t: Tmpfile)
        ensures
            staged_as(t, filename@),
    {
        let mut tmp_path = String::from_str("./tmp/");
        tmp_path.append(filename);
        Tmpfile { name: String::from_str(filename), tmp_path }
    }
}

impl From<Tmpfile> for UplodFile {
    /// The upload report of a staged file keeps its name.
    fn from(tmp_file: Tmpfile) -> (u: UplodFile) {
        UplodFile { filename: tmp_file.name }
    }
}

impl FromSpecImpl<Tmpfile> for UplodFile {
    open spec fn obeys_from_spec() -> bool {
        true
    }

    open spec fn from_spec(v: Tmpfile) -> UplodFile {
        UplodFile { filename: v.name }
    }
}

/// The name of the form part that carries files rather than text.
pub open spec fn file_field_name() -> Seq<char> {
    "file"@
}

/// A JSON object's members, as serde_json keeps them.
#[verifier::external_type_specification]
#[verifier::external_body]
#[verifier::reject_recursive_types(K)]
#[verifier::reject_recursive_types(V)]
pub struct ExJsonMap<K, V>(serde_json::Map<K, V>);

/// A JSON value, as serde_json keeps it.
#[verifier::external_type_specification]
#[verifier::external_body]
pub struct ExJsonValue(serde_json::Value);

/// A JSON object whose members serde_json keeps by name.
pub type JsonObject = serde_json::Map<String, serde_json::Value>;

/// The members of the object `m`: each member's name mapped to the text of its
/// value when that value is a JSON string, and to `None` when it is any other value.
pub uninterp spec fn json_members(m: JsonObject) -> Map<
    Seq<char>,
    Option<Seq<char>>,
>;

/// The compact JSON text of an object whose members are the names of `fields`,
/// each mapped to its text as a JSON string, as serde_json writes it.
pub uninterp spec fn json_object_text(fields: Map<Seq<char>, Seq<char>>) -> Seq<char>;

/// An object without members.
pub open spec fn no_members() -> Map<Seq<char>, Option<Seq<char>>> {
    Map::empty()
}

/// Every member of `members` is a JSON string.
pub open spec fn all_strings(members: Map<Seq<char>, Option<Seq<char>>>) -> bool {
    forall|k: Seq<char>| #[trigger] members.dom().contains(k) ==> members[k] is Some
}

/// The texts of the string members of `members`, by name.
pub open spec fn string_members(members: Map<Seq<char>, Option<Seq<char>>>) -> Map<
    Seq<char>,
    Seq<char>,
> {
    Map::new(|k: Seq<char>| members.dom().contains(k), |k: Seq<char>| members[k]->0)
}

/// Calls `std::str::from_utf8`. Trusted: it succeeds exactly on valid UTF-8,
/// and then the text is the decoding of the bytes.
#[verifier::external_body]
fn decode_text(bytes: &[u8]) -> (text: Option<String>)
    ensures
        text is Some <==> valid_utf8(bytes@),
        text is Some ==> text->0@ == decode_utf8(bytes@),
{
    std::str::from_utf8(bytes).ok().map(|s| s.to_string())
}

/// Calls `serde_json::Map::new`. Trusted: the new object has no members.
#[verifier::external_body]
fn json_map_new() -> (fresh: JsonObject)
    ensures
        json_members(fresh) == no_members(),
{
    serde_json::Map::new()
}

/// Calls `serde_json::Map::insert` with the value `Value::String(value)`.
/// Trusted: afterwards `name` is a member whose value is the string `value`,
/// in place of any earlier value, and the other members are as they were.
#[verifier::external_body]
fn json_map_insert(
    m: &mut JsonObject,
    name: String,
    value: String,
)
    ensures
        json_members(*final(m)) == json_members(*old(m)).insert(name@, Some(value@)),
{
    m.insert(name, serde_json::Value::String(value));
}

/// Writes the object `m` with `Value::to_string`. Trusted: when every member is
/// a string, the text is `json_object_text` of the members' texts. The order of
/// members and the escaping are serde_json's and are not stated.
#[verifier::external_body]
fn json_map_to_text(m: JsonObject) -> (text: String)
    ensures
        all_strings(json_members(m)) ==> text@ == json_object_text(string_members(json_members(m))),
{
    serde_json::Value::Object(m).to_string()
}

/// Whether a form part called `name` carries a file.
pub fn is_file_field(name: &str) -> (b: bool)
    ensures
        b == (name@ == file_field_name()),
        b == (name@ == "file"@),
{
    let n = String::from_str(name);
    let file = String::from_str("file");
    n == file
}

/// The parts of an upload seen so far: the text fields, as a JSON object, and
/// the staged files.
pub struct FormPayload {
    form: JsonObject,
    files: Vec<Tmpfile>,
}

impl FormPayload {
    /// Every member of the object is a string, and none is called `file`.
    #[verifier::type_invariant]
    spec fn well_formed(self) -> bool {
        &&& all_strings(json_members(self.form))
        &&& !json_members(self.form).dom().contains(file_field_name())
    }

    /// The text fields collected so far: each field's name mapped to its text.
    pub closed spec fn form_fields(self) -> Map<Seq<char>, Seq<char>> {
        string_members(json_members(self.form))
    }

    /// The staged files, in the order their parts arrived.
    pub closed spec fn staged_files(self) -> Seq<Tmpfile> {
        self.files@
    }

    /// An empty payload.
    pub fn new() -> (p: FormPayload)
        ensures
            p.form_fields() == Map::<Seq<char>, Seq<char>>::empty(),
            p.staged_files() == Seq::<Tmpfile>::empty(),
    {
        let p = FormPayload { form: json_map_new(), files: Vec::new() };
        assert(p.form_fields() =~= Map::<Seq<char>, Seq<char>>::empty());
        p
    }

    /// The staged files so far.
    pub fn files(&self) -> (f: &Vec<Tmpfile>)
        ensures
            f@ == self.staged_files(),
    {
        &self.files
    }

    /// Takes one chunk of the text part `name`. When the chunk is valid UTF-8 the
    /// field is set to its text, replacing what an earlier chunk set, and `true`
    /// is returned; otherwise nothing changes and `false` is returned.
    pub fn add_text_chunk(&mut self, name: &str, chunk: &[u8]) -> (decoded: bool)
        requires
            name@ != file_field_name(),
        ensures
            decoded == valid_utf8(chunk@),
            decoded ==> final(self).form_fields() == old(self).form_fields().insert(
                name@,
                decode_utf8(chunk@),
            ),
            !decoded ==> final(self).form_fields() == old(self).form_fields(),
            final(self).staged_files() == old(self).staged_files(),
            !final(self).form_fields().dom().contains(file_field_name()),
    {
        let decoded = match decode_text(chunk) {
            Some(text) => {
                self.set_field(name, text);
                true
            },
            None => false,
        };
        proof {
            use_type_invariant(&*self);
        }
        decoded
    }

    fn set_field(&mut self, name: &str, value: String)
        requires
            name@ != file_field_name(),
        ensures
            final(self).form_fields() == old(self).form_fields().insert(name@, value@),
            final(self).staged_files() == old(self).staged_files(),
    {
        proof {
            use_type_invariant(&*self);
        }
        let ghost before = json_members(self.form);
        let mut form = json_map_new();
        std::mem::swap(&mut form, &mut self.form);
        json_map_insert(&mut form, String::from_str(name), value);
        let ghost after = json_members(form);
        assert(after == before.insert(name@, Some(value@)));
        assert(string_members(after) =~= string_members(before).insert(name@, value@));
        assert(all_strings(after));
        self.form = form;
    }

    /// Takes a file part. A part with a file name is staged (see `Tmpfile::new`)
    /// after the files staged before, and `true` is returned; a part without one
    /// changes nothing and gives `false`.
    pub fn add_file_part(&mut self, filename: Option<&str>) -> (staged: bool)
        ensures
            staged == filename is Some,
            final(self).form_fields() == old(self).form_fields(),
            filename is None ==> final(self).staged_files() == old(self).staged_files(),
            filename is Some ==> {
                &&& final(self).staged_files().len() == old(self).staged_files().len() + 1
                &&& final(self).staged_files().drop_last() == old(self).staged_files()
                &&& staged_as(final(self).staged_files().last(), filename->0@)
            },
    {
        proof {
            use_type_invariant(&*self);
        }
        match filename {
            Some(f) => {
                let t = Tmpfile::new(f);
                let mut files: Vec<Tmpfile> = Vec::new();
                std::mem::swap(&mut files, &mut self.files);
                files.push(t);
                self.files = files;
                assert(self.files@.drop_last() =~= old(self).files@);
                true
            },
            None => false,
        }
    }

    /// Ends the upload: the JSON text of the collected fields (see
    /// `json_object_text`) and the staged files.
    pub fn finish(self) -> (parts: (String, Vec<Tmpfile>))
        ensures
            parts.0@ == json_object_text(self.form_fields()),
            parts.1@ == self.staged_files(),
    {
        proof {
            use_type_invariant(&self);
        }
        let FormPayload { form, files } = self;
        let json = json_map_to_text(form);
        (json, files)
    }
}

/// Of two chunks of the same field, the later one decides its value, and the
/// other fields are as the earlier ones left them.
pub proof fn law_last_chunk_wins(
    fields: Map<Seq<char>, Seq<char>>,
    name: Seq<char>,
    first: Seq<char>,
    second: Seq<char>,
)
    ensures
        fields.insert(name, first).insert(name, second) == fields.insert(name, second),
        fields.insert(name, second)[name] == second,
        forall|k: Seq<char>|
            k != name && #[trigger] fields.dom().contains(k) ==> fields.insert(name, second)[k]
                == fields[k],
{
    assert(fields.insert(name, first).insert(name, second) =~= fields.insert(name, second));
}

/// The upload report of a staged file names the file that was staged.
pub proof fn law_report_names_staged_file(t: Tmpfile, filename: Seq<char>)
    requires
        staged_as(t, filename),
    ensures
        <UplodFile as vstd::std_specs::convert::FromSpec<Tmpfile>>::from_spec(t).filename@ == filename,
{
}

/// A staged file keeps its name and is kept at `./tmp/` followed by that name.
pub proof fn law_staged_path(t: Tmpfile, filename: Seq<char>)
    ensures
        staged_as(t, filename) <==> (t.name@ == filename && t.tmp_path@ == "./tmp/"@ + filename),
{
}

} // verus!
