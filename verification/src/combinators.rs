pub mod combinator_type;
pub mod if_builder;
pub mod if_check;
pub mod if_cmp_from;
pub mod if_cmp_len_from;
pub mod if_cmp_len_to;
pub mod if_cmp_to;
pub mod set_builder;
pub mod set_from;
pub mod set_from_len;
pub mod set_repeat_builder;
pub mod set_repeat_from;
pub mod set_repeat_to;
pub mod set_to;
pub mod utils;
