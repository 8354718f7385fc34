//! Small verified building blocks: greetings, cons lists, a boxing
//! smart pointer, drawable widgets, a quota tracker and the head of an
//! HTTP request.

pub mod cons_list;
pub mod my_box;
pub mod quota;
pub mod rc_list;
pub mod text;
pub mod widgets;
pub mod http;
