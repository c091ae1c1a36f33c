use crate::consts::FIELDS;
use crate::shared::{fields_of, is_valid_line, split_error, starts_with_tab, validate_for_split, TabSplitter};
use crate::borrowed::raw::lemma_valid_line_fields;
use vstd::prelude::*;
use vstd::string::StringSliceAdditionalSpecFns;

verus! {

/// A view of a line that computes each field on demand.
///
/// Every access scans the line again from its start up to the field asked
/// for; nothing is cached.
pub struct LogLineView<'a> {
    line: &'a str,
}

impl<'a> LogLineView<'a> {
    /// The line that the view reads.
    pub closed spec fn line(&self) -> Seq<u8> {
        self.line.spec_bytes()
    }

    /// The fields of the line, as bytes.
    pub open spec fn fields(&self) -> Seq<Seq<u8>> {
        fields_of(self.line())
    }

    /// The view reads a valid line.
    pub open spec fn wf(&self) -> bool {
        is_valid_line(self.line()) && !starts_with_tab(self.line())
    }

    /// Validates `line` with [`validate_line`], rejects a tab at its start, and makes a view of it.
    pub fn new(line: &'a str) -> (r: Result<Self, &'static str>)
        ensures
            r is Ok <==> split_error(line.spec_bytes()) is None,
            r matches Ok(v) ==> v.wf() && v.line() == line.spec_bytes(),
            r matches Err(e) ==> split_error(line.spec_bytes()) == Some(e),
    {
        validate_for_split(line)?;
        Ok(LogLineView { line })
    }

    /// Field `index`, found by scanning from the start of the line.
    fn field(&self, index: usize) -> (r: &'a str)
        requires
            self.wf(),
            index < FIELDS,
        ensures
            r.spec_bytes() == self.fields()[index as int],
    {
        proof {
            lemma_valid_line_fields(self.line());
        }
        let mut iter = TabSplitter::new(self.line);
        match iter.nth(index) {
            Some(f) => f,
            None => self.line,
        }
    }

    /// The `date` field.
    pub fn date(&self) -> (r: &'a str)
        requires
            self.wf(),
        ensures
            r.spec_bytes() == self.fields()[0],
    {
        self.field(0)
    }

    /// The `time` field.
    pub fn time(&self) -> (r: &'a str)
        requires
            self.wf(),
        ensures
            r.spec_bytes() == self.fields()[1],
    {
        self.field(1)
    }

    /// The `x_edge_location` field.
    pub fn x_edge_location(&self) -> (r: &'a str)
        requires
            self.wf(),
        ensures
            r.spec_bytes() == self.fields()[2],
    {
        self.field(2)
    }

    /// The `sc_bytes` field.
    pub fn sc_bytes(&self) -> (r: &'a str)
        requires
            self.wf(),
        ensures
            r.spec_bytes() == self.fields()[3],
    {
        self.field(3)
    }

    /// The `c_ip` field.
    pub fn c_ip(&self) -> (r: &'a str)
        requires
            self.wf(),
        ensures
            r.spec_bytes() == self.fields()[4],
    {
        self.field(4)
    }

    /// The `cs_method` field.
    pub fn cs_method(&self) -> (r: &'a str)
        requires
            self.wf(),
        ensures
            r.spec_bytes() == self.fields()[5],
    {
        self.field(5)
    }

    /// The `cs_host` field.
    pub fn cs_host(&self) -> (r: &'a str)
        requires
            self.wf(),
        ensures
            r.spec_bytes() == self.fields()[6],
    {
        self.field(6)
    }

    /// The `cs_uri_stem` field.
    pub fn cs_uri_stem(&self) -> (r: &'a str)
        requires
            self.wf(),
        ensures
            r.spec_bytes() == self.fields()[7],
    {
        self.field(7)
    }

    /// The `sc_status` field.
    pub fn sc_status(&self) -> (r: &'a str)
        requires
            self.wf(),
        ensures
            r.spec_bytes() == self.fields()[8],
    {
        self.field(8)
    }

    /// The `cs_referer` field.
    pub fn cs_referer(&self) -> (r: &'a str)
        requires
            self.wf(),
        ensures
            r.spec_bytes() == self.fields()[9],
    {
        self.field(9)
    }

    /// The `cs_user_agent` field.
    pub fn cs_user_agent(&self) -> (r: &'a str)
        requires
            self.wf(),
        ensures
            r.spec_bytes() == self.fields()[10],
    {
        self.field(10)
    }

    /// The `cs_uri_query` field.
    pub fn cs_uri_query(&self) -> (r: &'a str)
        requires
            self.wf(),
        ensures
            r.spec_bytes() == self.fields()[11],
    {
        self.field(11)
    }

    /// The `cs_cookie` field.
    pub fn cs_cookie(&self) -> (r: &'a str)
        requires
            self.wf(),
        ensures
            r.spec_bytes() == self.fields()[12],
    {
        self.field(12)
    }

    /// The `x_edge_result_type` field.
    pub fn x_edge_result_type(&self) -> (r: &'a str)
        requires
            self.wf(),
        ensures
            r.spec_bytes() == self.fields()[13],
    {
        self.field(13)
    }

    /// The `x_edge_request_id` field.
    pub fn x_edge_request_id(&self) -> (r: &'a str)
        requires
            self.wf(),
        ensures
            r.spec_bytes() == self.fields()[14],
    {
        self.field(14)
    }

    /// The `x_host_header` field.
    pub fn x_host_header(&self) -> (r: &'a str)
        requires
            self.wf(),
        ensures
            r.spec_bytes() == self.fields()[15],
    {
        self.field(15)
    }

    /// The `cs_protocol` field.
    pub fn cs_protocol(&self) -> (r: &'a str)
        requires
            self.wf(),
        ensures
            r.spec_bytes() == self.fields()[16],
    {
        self.field(16)
    }

    /// The `cs_bytes` field.
    pub fn cs_bytes(&self) -> (r: &'a str)
        requires
            self.wf(),
        ensures
            r.spec_bytes() == self.fields()[17],
    {
        self.field(17)
    }

    /// The `time_taken` field.
    pub fn time_taken(&self) -> (r: &'a str)
        requires
            self.wf(),
        ensures
            r.spec_bytes() == self.fields()[18],
    {
        self.field(18)
    }

    /// The `x_forwarded_for` field.
    pub fn x_forwarded_for(&self) -> (r: &'a str)
        requires
            self.wf(),
        ensures
            r.spec_bytes() == self.fields()[19],
    {
        self.field(19)
    }

    /// The `ssl_protocol` field.
    pub fn ssl_protocol(&self) -> (r: &'a str)
        requires
            self.wf(),
        ensures
            r.spec_bytes() == self.fields()[20],
    {
        self.field(20)
    }

    /// The `ssl_cipher` field.
    pub fn ssl_cipher(&self) -> (r: &'a str)
        requires
            self.wf(),
        ensures
            r.spec_bytes() == self.fields()[21],
    {
        self.field(21)
    }

    /// The `x_edge_response_result_type` field.
    pub fn x_edge_response_result_type(&self) -> (r: &'a str)
        requires
            self.wf(),
        ensures
            r.spec_bytes() == self.fields()[22],
    {
        self.field(22)
    }

    /// The `cs_protocol_version` field.
    pub fn cs_protocol_version(&self) -> (r: &'a str)
        requires
            self.wf(),
        ensures
            r.spec_bytes() == self.fields()[23],
    {
        self.field(23)
    }

    /// The `fle_status` field.
    pub fn fle_status(&self) -> (r: &'a str)
        requires
            self.wf(),
        ensures
            r.spec_bytes() == self.fields()[24],
    {
        self.field(24)
    }

    /// The `fle_encrypted_fields` field.
    pub fn fle_encrypted_fields(&self) -> (r: &'a str)
        requires
            self.wf(),
        ensures
            r.spec_bytes() == self.fields()[25],
    {
        self.field(25)
    }

    /// The `c_port` field.
    pub fn c_port(&self) -> (r: &'a str)
        requires
            self.wf(),
        ensures
            r.spec_bytes() == self.fields()[26],
    {
        self.field(26)
    }

    /// The `time_to_first_byte` field.
    pub fn time_to_first_byte(&self) -> (r: &'a str)
        requires
            self.wf(),
        ensures
            r.spec_bytes() == self.fields()[27],
    {
        self.field(27)
    }

    /// The `x_edge_detailed_result_type` field.
    pub fn x_edge_detailed_result_type(&self) -> (r: &'a str)
        requires
            self.wf(),
        ensures
            r.spec_bytes() == self.fields()[28],
    {
        self.field(28)
    }

    /// The `sc_content_type` field.
    pub fn sc_content_type(&self) -> (r: &'a str)
        requires
            self.wf(),
        ensures
            r.spec_bytes() == self.fields()[29],
    {
        self.field(29)
    }

    /// The `sc_content_len` field.
    pub fn sc_content_len(&self) -> (r: &'a str)
        requires
            self.wf(),
        ensures
            r.spec_bytes() == self.fields()[30],
    {
        self.field(30)
    }

    /// The `sc_range_start` field.
    pub fn sc_range_start(&self) -> (r: &'a str)
        requires
            self.wf(),
        ensures
            r.spec_bytes() == self.fields()[31],
    {
        self.field(31)
    }

    /// The `sc_range_end` field.
    pub fn sc_range_end(&self) -> (r: &'a str)
        requires
            self.wf(),
        ensures
            r.spec_bytes() == self.fields()[32],
    {
        self.field(32)
    }
}

} // verus!
