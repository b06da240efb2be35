use vstd::prelude::*;
use vstd::std_specs::cmp::PartialEqSpecImpl;

verus! {

/// A binary attachment that can be added to an email.
#[derive(Debug, Hash)]
pub struct Attachment {
    name: String,
    mime_type: String,
    data: Vec<u8>,
}

impl View for Attachment {
    type V = (Seq<char>, Seq<char>, Seq<u8>);

    /// The file name, the MIME type and the content.
    closed spec fn view(&self) -> (Seq<char>, Seq<char>, Seq<u8>) {
        (self.name@, self.mime_type@, self.data@)
    }
}

impl Attachment {
    /// The attachment with the given file name, MIME type and content.
    pub fn new(name: &str, mime_type: &str, data: Vec<u8>) -> (attachment: Self)
        ensures
            attachment@ == (name@, mime_type@, data@),
    {
        Attachment { name: name.to_owned(), mime_type: mime_type.to_owned(), data }
    }

    /// A PDF attachment with the given file name and content.
    pub fn pdf(name: &str, data: Vec<u8>) -> (attachment: Self)
        ensures
            attachment@ == (name@, "application/pdf"@, data@),
    {
        Self::new(name, "application/pdf", data)
    }

    /// A sample value, for examples and tests.
    pub fn sample() -> (attachment: Self)
        ensures
            attachment@ == ("sample.pdf"@, "application/pdf"@, seq![0xdeu8, 0xadu8, 0xbeu8, 0xefu8]),
    {
        let mut data: Vec<u8> = Vec::new();
        data.push(0xde);
        data.push(0xad);
        data.push(0xbe);
        data.push(0xef);
        assert(data@ =~= seq![0xdeu8, 0xadu8, 0xbeu8, 0xefu8]);
        Self::pdf("sample.pdf", data)
    }

    /// A second sample value, different from `sample`.
    pub fn sample_other() -> (attachment: Self)
        ensures
            attachment@ == (
                "notes.txt"@,
                "text/plain"@,
                vstd::utf8::encode_utf8("Hello from mejla"@),
            ),
    {
        Self::new("notes.txt", "text/plain", vstd::slice::slice_to_vec("Hello from mejla".as_bytes()))
    }

    /// The file name of the attachment.
    pub fn name(&self) -> (name: &String)
        ensures
            name@ == self@.0,
    {
        &self.name
    }

    /// The MIME type of the attachment.
    pub fn mime_type(&self) -> (mime_type: &String)
        ensures
            mime_type@ == self@.1,
    {
        &self.mime_type
    }

    /// The content of the attachment.
    pub fn data(&self) -> (data: &Vec<u8>)
        ensures
            data@ == self@.2,
    {
        &self.data
    }
}

impl Clone for Attachment {
    fn clone(&self) -> (copy: Self)
        ensures
            copy@ == self@,
    {
        Attachment {
            name: self.name.clone(),
            mime_type: self.mime_type.clone(),
            data: self.data.clone(),
        }
    }
}

impl PartialEq for Attachment {
    fn eq(&self, other: &Self) -> (equal: bool) {
        let same_data = self.data == other.data;
        proof {
            if same_data {
                assert(self.data@ =~= other.data@);
            }
        }
        self.name == other.name && self.mime_type == other.mime_type && same_data
    }
}

impl Eq for Attachment {

}

impl PartialEqSpecImpl for Attachment {
    open spec fn obeys_eq_spec() -> bool {
        true
    }

    open spec fn eq_spec(&self, other: &Self) -> bool {
        self@ == other@
    }
}

} // verus!
