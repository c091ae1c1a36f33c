use crate::consts::FIELDS;
use crate::shared::{fields_of, is_valid_line, split_error, starts_with_tab, validate_for_split, TabSplitter};
use crate::borrowed::raw::lemma_valid_line_fields;
use vstd::prelude::*;
use vstd::string::StringSliceAdditionalSpecFns;

verus! {

/// A view of a line that remembers where its cursor stands.
///
/// It keeps the index and the text of the field read last. A read of the
/// same field returns the cached text; a read further on moves the cursor
/// forward from where it stands; a read of an earlier field starts a new
/// cursor at the start of the line. Reads take `&mut self`, since they move
/// the cursor; the fields they return never change.
pub struct LogLineView<'a> {
    line: &'a str,
    iter: TabSplitter<'a>,
    prev: usize,
    last: &'a str,
}

impl<'a> LogLineView<'a> {
    /// The line that the view reads.
    pub closed spec fn line(&self) -> Seq<u8> {
        self.line.spec_bytes()
    }

    /// The fields of the line, as bytes.
    pub open spec fn fields(&self) -> Seq<Seq<u8>> {
        fields_of(self.line())
    }

    /// The line is valid, and the cursor and cache agree with it.
    pub closed spec fn wf(&self) -> bool {
        let all = fields_of(self.line.spec_bytes());
        &&& is_valid_line(self.line.spec_bytes())
        &&& !starts_with_tab(self.line.spec_bytes())
        &&& self.prev < FIELDS
        &&& all.len() == FIELDS
        &&& self.last.spec_bytes() == all[self.prev as int]
        &&& self.iter.remaining() == all.skip(self.prev + 1)
    }

    /// Validates `line` with [`validate_line`], rejects a tab at its start, and makes a view of it,
    /// with the cursor on the first field.
    pub fn new(line: &'a str) -> (r: Result<Self, &'static str>)
        ensures
            r is Ok <==> split_error(line.spec_bytes()) is None,
            r matches Ok(v) ==> v.wf() && v.line() == line.spec_bytes(),
            r matches Err(e) ==> split_error(line.spec_bytes()) == Some(e),
    {
        validate_for_split(line)?;
        proof {
            lemma_valid_line_fields(line.spec_bytes());
        }
        let ghost all = fields_of(line.spec_bytes());
        let mut iter = TabSplitter::new(line);
        let last = match iter.next() {
            Some(f) => f,
            None => line,
        };
        assert(all.drop_first() =~= all.skip(1));
        Ok(LogLineView { line, iter, prev: 0, last })
    }

    /// Field `index`, read through the cached cursor.
    fn field(&mut self, index: usize) -> (r: &'a str)
        requires
            old(self).wf(),
            index < FIELDS,
        ensures
            final(self).wf(),
            final(self).fields() == old(self).fields(),
            r.spec_bytes() == old(self).fields()[index as int],
    {
        let ghost all = fields_of(self.line.spec_bytes());
        let v = if index > self.prev {
            let rel = index - self.prev - 1;
            let ghost start = self.iter.remaining();
            let found = self.iter.nth(rel);
            proof {
                assert(start.skip(rel + 1) =~= all.skip(index + 1));
                assert(start[rel as int] == all[index as int]);
            }
            match found {
                Some(f) => f,
                None => self.line,
            }
        } else if index == self.prev {
            self.last
        } else {
            self.iter = TabSplitter::new(self.line);
            let found = self.iter.nth(index);
            assert(all.skip(0) =~= all);
            match found {
                Some(f) => f,
                None => self.line,
            }
        };
        self.prev = index;
        self.last = v;
        v
    }

    /// The `date` field.
    pub fn date(&mut self) -> (r: &'a str)
        requires
            old(self).wf(),
        ensures
            final(self).wf(),
            final(self).fields() == old(self).fields(),
            r.spec_bytes() == old(self).fields()[0],
    {
        self.field(0)
    }

    /// The `time` field.
    pub fn time(&mut self) -> (r: &'a str)
        requires
            old(self).wf(),
        ensures
            final(self).wf(),
            final(self).fields() == old(self).fields(),
            r.spec_bytes() == old(self).fields()[1],
    {
        self.field(1)
    }

    /// The `x_edge_location` field.
    pub fn x_edge_location(&mut self) -> (r: &'a str)
        requires
            old(self).wf(),
        ensures
            final(self).wf(),
            final(self).fields() == old(self).fields(),
            r.spec_bytes() == old(self).fields()[2],
    {
        self.field(2)
    }

    /// The `sc_bytes` field.
    pub fn sc_bytes(&mut self) -> (r: &'a str)
        requires
            old(self).wf(),
        ensures
            final(self).wf(),
            final(self).fields() == old(self).fields(),
            r.spec_bytes() == old(self).fields()[3],
    {
        self.field(3)
    }

    /// The `c_ip` field.
    pub fn c_ip(&mut self) -> (r: &'a str)
        requires
            old(self).wf(),
        ensures
            final(self).wf(),
            final(self).fields() == old(self).fields(),
            r.spec_bytes() == old(self).fields()[4],
    {
        self.field(4)
    }

    /// The `cs_method` field.
    pub fn cs_method(&mut self) -> (r: &'a str)
        requires
            old(self).wf(),
        ensures
            final(self).wf(),
            final(self).fields() == old(self).fields(),
            r.spec_bytes() == old(self).fields()[5],
    {
        self.field(5)
    }

    /// The `cs_host` field.
    pub fn cs_host(&mut self) -> (r: &'a str)
        requires
            old(self).wf(),
        ensures
            final(self).wf(),
            final(self).fields() == old(self).fields(),
            r.spec_bytes() == old(self).fields()[6],
    {
        self.field(6)
    }

    /// The `cs_uri_stem` field.
    pub fn cs_uri_stem(&mut self) -> (r: &'a str)
        requires
            old(self).wf(),
        ensures
            final(self).wf(),
            final(self).fields() == old(self).fields(),
            r.spec_bytes() == old(self).fields()[7],
    {
        self.field(7)
    }

    /// The `sc_status` field.
    pub fn sc_status(&mut self) -> (r: &'a str)
        requires
            old(self).wf(),
        ensures
            final(self).wf(),
            final(self).fields() == old(self).fields(),
            r.spec_bytes() == old(self).fields()[8],
    {
        self.field(8)
    }

    /// The `cs_referer` field.
    pub fn cs_referer(&mut self) -> (r: &'a str)
        requires
            old(self).wf(),
        ensures
            final(self).wf(),
            final(self).fields() == old(self).fields(),
            r.spec_bytes() == old(self).fields()[9],
    {
        self.field(9)
    }

    /// The `cs_user_agent` field.
    pub fn cs_user_agent(&mut self) -> (r: &'a str)
        requires
            old(self).wf(),
        ensures
            final(self).wf(),
            final(self).fields() == old(self).fields(),
            r.spec_bytes() == old(self).fields()[10],
    {
        self.field(10)
    }

    /// The `cs_uri_query` field.
    pub fn cs_uri_query(&mut self) -> (r: &'a str)
        requires
            old(self).wf(),
        ensures
            final(self).wf(),
            final(self).fields() == old(self).fields(),
            r.spec_bytes() == old(self).fields()[11],
    {
        self.field(11)
    }

    /// The `cs_cookie` field.
    pub fn cs_cookie(&mut self) -> (r: &'a str)
        requires
            old(self).wf(),
        ensures
            final(self).wf(),
            final(self).fields() == old(self).fields(),
            r.spec_bytes() == old(self).fields()[12],
    {
        self.field(12)
    }

    /// The `x_edge_result_type` field.
    pub fn x_edge_result_type(&mut self) -> (r: &'a str)
        requires
            old(self).wf(),
        ensures
            final(self).wf(),
            final(self).fields() == old(self).fields(),
            r.spec_bytes() == old(self).fields()[13],
    {
        self.field(13)
    }

    /// The `x_edge_request_id` field.
    pub fn x_edge_request_id(&mut self) -> (r: &'a str)
        requires
            old(self).wf(),
        ensures
            final(self).wf(),
            final(self).fields() == old(self).fields(),
            r.spec_bytes() == old(self).fields()[14],
    {
        self.field(14)
    }

    /// The `x_host_header` field.
    pub fn x_host_header(&mut self) -> (r: &'a str)
        requires
            old(self).wf(),
        ensures
            final(self).wf(),
            final(self).fields() == old(self).fields(),
            r.spec_bytes() == old(self).fields()[15],
    {
        self.field(15)
    }

    /// The `cs_protocol` field.
    pub fn cs_protocol(&mut self) -> (r: &'a str)
        requires
            old(self).wf(),
        ensures
            final(self).wf(),
            final(self).fields() == old(self).fields(),
            r.spec_bytes() == old(self).fields()[16],
    {
        self.field(16)
    }

    /// The `cs_bytes` field.
    pub fn cs_bytes(&mut self) -> (r: &'a str)
        requires
            old(self).wf(),
        ensures
            final(self).wf(),
            final(self).fields() == old(self).fields(),
            r.spec_bytes() == old(self).fields()[17],
    {
        self.field(17)
    }

    /// The `time_taken` field.
    pub fn time_taken(&mut self) -> (r: &'a str)
        requires
            old(self).wf(),
        ensures
            final(self).wf(),
            final(self).fields() == old(self).fields(),
            r.spec_bytes() == old(self).fields()[18],
    {
        self.field(18)
    }

    /// The `x_forwarded_for` field.
    pub fn x_forwarded_for(&mut self) -> (r: &'a str)
        requires
            old(self).wf(),
        ensures
            final(self).wf(),
            final(self).fields() == old(self).fields(),
            r.spec_bytes() == old(self).fields()[19],
    {
        self.field(19)
    }

    /// The `ssl_protocol` field.
    pub fn ssl_protocol(&mut self) -> (r: &'a str)
        requires
            old(self).wf(),
        ensures
            final(self).wf(),
            final(self).fields() == old(self).fields(),
            r.spec_bytes() == old(self).fields()[20],
    {
        self.field(20)
    }

    /// The `ssl_cipher` field.
    pub fn ssl_cipher(&mut self) -> (r: &'a str)
        requires
            old(self).wf(),
        ensures
            final(self).wf(),
            final(self).fields() == old(self).fields(),
            r.spec_bytes() == old(self).fields()[21],
    {
        self.field(21)
    }

    /// The `x_edge_response_result_type` field.
    pub fn x_edge_response_result_type(&mut self) -> (r: &'a str)
        requires
            old(self).wf(),
        ensures
            final(self).wf(),
            final(self).fields() == old(self).fields(),
            r.spec_bytes() == old(self).fields()[22],
    {
        self.field(22)
    }

    /// The `cs_protocol_version` field.
    pub fn cs_protocol_version(&mut self) -> (r: &'a str)
        requires
            old(self).wf(),
        ensures
            final(self).wf(),
            final(self).fields() == old(self).fields(),
            r.spec_bytes() == old(self).fields()[23],
    {
        self.field(23)
    }

    /// The `fle_status` field.
    pub fn fle_status(&mut self) -> (r: &'a str)
        requires
            old(self).wf(),
        ensures
            final(self).wf(),
            final(self).fields() == old(self).fields(),
            r.spec_bytes() == old(self).fields()[24],
    {
        self.field(24)
    }

    /// The `fle_encrypted_fields` field.
    pub fn fle_encrypted_fields(&mut self) -> (r: &'a str)
        requires
            old(self).wf(),
        ensures
            final(self).wf(),
            final(self).fields() == old(self).fields(),
            r.spec_bytes() == old(self).fields()[25],
    {
        self.field(25)
    }

    /// The `c_port` field.
    pub fn c_port(&mut self) -> (r: &'a str)
        requires
            old(self).wf(),
        ensures
            final(self).wf(),
            final(self).fields() == old(self).fields(),
            r.spec_bytes() == old(self).fields()[26],
    {
        self.field(26)
    }

    /// The `time_to_first_byte` field.
    pub fn time_to_first_byte(&mut self) -> (r: &'a str)
        requires
            old(self).wf(),
        ensures
            final(self).wf(),
            final(self).fields() == old(self).fields(),
            r.spec_bytes() == old(self).fields()[27],
    {
        self.field(27)
    }

    /// The `x_edge_detailed_result_type` field.
    pub fn x_edge_detailed_result_type(&mut self) -> (r: &'a str)
        requires
            old(self).wf(),
        ensures
            final(self).wf(),
            final(self).fields() == old(self).fields(),
            r.spec_bytes() == old(self).fields()[28],
    {
        self.field(28)
    }

    /// The `sc_content_type` field.
    pub fn sc_content_type(&mut self) -> (r: &'a str)
        requires
            old(self).wf(),
        ensures
            final(self).wf(),
            final(self).fields() == old(self).fields(),
            r.spec_bytes() == old(self).fields()[29],
    {
        self.field(29)
    }

    /// The `sc_content_len` field.
    pub fn sc_content_len(&mut self) -> (r: &'a str)
        requires
            old(self).wf(),
        ensures
            final(self).wf(),
            final(self).fields() == old(self).fields(),
            r.spec_bytes() == old(self).fields()[30],
    {
        self.field(30)
    }

    /// The `sc_range_start` field.
    pub fn sc_range_start(&mut self) -> (r: &'a str)
        requires
            old(self).wf(),
        ensures
            final(self).wf(),
            final(self).fields() == old(self).fields(),
            r.spec_bytes() == old(self).fields()[31],
    {
        self.field(31)
    }

    /// The `sc_range_end` field.
    pub fn sc_range_end(&mut self) -> (r: &'a str)
        requires
            old(self).wf(),
        ensures
            final(self).wf(),
            final(self).fields() == old(self).fields(),
            r.spec_bytes() == old(self).fields()[32],
    {
        self.field(32)
    }
}

} // verus!
