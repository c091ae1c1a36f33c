//! Schemas of the typed record for columnar file writers, in the message
//! type syntax of Parquet.

use vstd::prelude::*;

verus! {

/// The schema with a millisecond timestamp.
pub const V0: &'static str = r#"message rust_schema {
REQUIRED INT32 date (DATE);
REQUIRED BYTE_ARRAY time (STRING);
REQUIRED INT64 datetime (TIMESTAMP_MILLIS);
REQUIRED BYTE_ARRAY x_edge_location (STRING);
REQUIRED INT64 sc_bytes (INTEGER(64,false));
REQUIRED BYTE_ARRAY c_ip (STRING);
REQUIRED BYTE_ARRAY cs_method (STRING);
REQUIRED BYTE_ARRAY cs_host (STRING);
REQUIRED BYTE_ARRAY cs_uri_stem (STRING);
REQUIRED INT32 sc_status (INTEGER(16,false));
OPTIONAL BYTE_ARRAY cs_referer (STRING);
REQUIRED BYTE_ARRAY cs_user_agent (STRING);
OPTIONAL BYTE_ARRAY cs_uri_query (STRING);
OPTIONAL BYTE_ARRAY cs_cookie (STRING);
REQUIRED BYTE_ARRAY x_edge_result_type (STRING);
REQUIRED BYTE_ARRAY x_edge_request_id (STRING);
REQUIRED BYTE_ARRAY x_host_header (STRING);
REQUIRED BYTE_ARRAY cs_protocol (STRING);
REQUIRED INT64 cs_bytes (INTEGER(64,false));
REQUIRED DOUBLE time_taken;
OPTIONAL BYTE_ARRAY x_forwarded_for (STRING);
OPTIONAL BYTE_ARRAY ssl_protocol (STRING);
OPTIONAL BYTE_ARRAY ssl_cipher (STRING);
REQUIRED BYTE_ARRAY x_edge_response_result_type (STRING);
REQUIRED BYTE_ARRAY cs_protocol_version (STRING);
OPTIONAL BYTE_ARRAY fle_status (STRING);
OPTIONAL INT64 fle_encrypted_fields (INTEGER(64,false));
REQUIRED INT32 c_port (INTEGER(16,false));
REQUIRED DOUBLE time_to_first_byte;
REQUIRED BYTE_ARRAY x_edge_detailed_result_type (STRING);
REQUIRED BYTE_ARRAY sc_content_type (STRING);
REQUIRED INT64 sc_content_len (INTEGER(64,false));
OPTIONAL INT64 sc_range_start (INTEGER(64,false));
OPTIONAL INT64 sc_range_end (INTEGER(64,false));
    }"#;

/// The schema with a UTC-adjusted millisecond timestamp.
pub const V1: &'static str = r#"message rust_schema {
REQUIRED INT32 date (DATE);
REQUIRED BYTE_ARRAY time (STRING);
REQUIRED INT64 datetime (TIMESTAMP(MILLIS,true));
REQUIRED BYTE_ARRAY x_edge_location (STRING);
REQUIRED INT64 sc_bytes (INTEGER(64,false));
REQUIRED BYTE_ARRAY c_ip (STRING);
REQUIRED BYTE_ARRAY cs_method (STRING);
REQUIRED BYTE_ARRAY cs_host (STRING);
REQUIRED BYTE_ARRAY cs_uri_stem (STRING);
REQUIRED INT32 sc_status (INTEGER(16,false));
OPTIONAL BYTE_ARRAY cs_referer (STRING);
REQUIRED BYTE_ARRAY cs_user_agent (STRING);
OPTIONAL BYTE_ARRAY cs_uri_query (STRING);
OPTIONAL BYTE_ARRAY cs_cookie (STRING);
REQUIRED BYTE_ARRAY x_edge_result_type (STRING);
REQUIRED BYTE_ARRAY x_edge_request_id (STRING);
REQUIRED BYTE_ARRAY x_host_header (STRING);
REQUIRED BYTE_ARRAY cs_protocol (STRING);
REQUIRED INT64 cs_bytes (INTEGER(64,false));
REQUIRED DOUBLE time_taken;
OPTIONAL BYTE_ARRAY x_forwarded_for (STRING);
OPTIONAL BYTE_ARRAY ssl_protocol (STRING);
OPTIONAL BYTE_ARRAY ssl_cipher (STRING);
REQUIRED BYTE_ARRAY x_edge_response_result_type (STRING);
REQUIRED BYTE_ARRAY cs_protocol_version (STRING);
OPTIONAL BYTE_ARRAY fle_status (STRING);
OPTIONAL INT64 fle_encrypted_fields (INTEGER(64,false));
REQUIRED INT32 c_port (INTEGER(16,false));
REQUIRED DOUBLE time_to_first_byte;
REQUIRED BYTE_ARRAY x_edge_detailed_result_type (STRING);
REQUIRED BYTE_ARRAY sc_content_type (STRING);
REQUIRED INT64 sc_content_len (INTEGER(64,false));
OPTIONAL INT64 sc_range_start (INTEGER(64,false));
OPTIONAL INT64 sc_range_end (INTEGER(64,false));
    }"#;

} // verus!
