pub mod base_struct;
pub mod bfp_list;
pub mod bfp_type;
pub mod byte_stream;
pub mod le;
pub mod parseable_type;
pub mod py_bfp_type;
pub mod structure;
pub mod version;
