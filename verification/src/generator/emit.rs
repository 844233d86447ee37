//! The text of a generated file: its lines, and the templates that the
//! longer ones are made from.

use std::collections::VecDeque;
use vstd::prelude::*;
use crate::template::{expand, fill, views};
use crate::text::texts;

verus! {

/// The first line of every generated file.
pub const BANNER: &'static str =
    "// This file was automatically generated by ros2msg_to_rs (https://github.com/tier4/ros2msg_to_rs).";

/// The placeholder field of a record that declares no field: a record must
/// not be empty.
pub const UNUSED: &'static str = "    _unused: u8";

/// The native functions of a message. `$0` is the package, `$1` the message.
pub const CFUN_MSG: &'static str = "
extern \"C\" {
    fn $0__msg__$1__init(msg: *mut $1) -> bool;
    fn $0__msg__$1__fini(msg: *mut $1);
    fn $0__msg__$1__are_equal(lhs: *const $1, rhs: *const $1) -> bool;
    fn $0__msg__$1__Sequence__init(msg: *mut $1SeqRaw, size: usize) -> bool;
    fn $0__msg__$1__Sequence__fini(msg: *mut $1SeqRaw);
    fn $0__msg__$1__Sequence__are_equal(lhs: *const $1SeqRaw, rhs: *const $1SeqRaw) -> bool;
    fn rosidl_typesupport_c__get_message_type_support_handle__$0__msg__$1() -> *const rcl::rosidl_message_type_support_t;
}
";

/// The native functions of a service and of its two halves. `$0` is the
/// package, `$1` the service.
pub const CFUN_SRV: &'static str = "
extern \"C\" {
    fn $0__srv__$1_Request__init(msg: *mut $1Request) -> bool;
    fn $0__srv__$1_Request__fini(msg: *mut $1Request);
    fn $0__srv__$1_Request__are_equal(lhs: *const $1Request, rhs: *const $1Request) -> bool;
    fn $0__srv__$1_Request__Sequence__init(msg: *mut $1RequestSeqRaw, size: usize) -> bool;
    fn $0__srv__$1_Request__Sequence__fini(msg: *mut $1RequestSeqRaw);
    fn $0__srv__$1_Request__Sequence__are_equal(lhs: *const $1RequestSeqRaw, rhs: *const $1RequestSeqRaw) -> bool;
    fn $0__srv__$1_Response__init(msg: *mut $1Response) -> bool;
    fn $0__srv__$1_Response__fini(msg: *mut $1Response);
    fn $0__srv__$1_Response__are_equal(lhs: *const $1Response, rhs: *const $1Response) -> bool;
    fn $0__srv__$1_Response__Sequence__init(msg: *mut $1ResponseSeqRaw, size: usize) -> bool;
    fn $0__srv__$1_Response__Sequence__fini(msg: *mut $1ResponseSeqRaw);
    fn $0__srv__$1_Response__Sequence__are_equal(lhs: *const $1ResponseSeqRaw, rhs: *const $1ResponseSeqRaw) -> bool;
    fn rosidl_typesupport_c__get_service_type_support_handle__$0__srv__$1() -> *const rcl::rosidl_service_type_support_t;
    fn rosidl_typesupport_c__get_message_type_support_handle__$0__srv__$1_Request() -> *const rcl::rosidl_message_type_support_t;
    fn rosidl_typesupport_c__get_message_type_support_handle__$0__srv__$1_Response() -> *const rcl::rosidl_message_type_support_t;
}
";

/// The lifecycle of a record and its sequence type. `$0` is the package,
/// `$1` the category (`msg` or `srv`), `$2` the name of the interface, `$3`
/// what the native functions add to that name for this record, and `$4` the
/// name of the record.
pub const IMPL: &'static str = "
impl $4 {
    pub fn new() -> Option<Self> {
        let mut msg: Self = unsafe { std::mem::MaybeUninit::zeroed().assume_init() };
        if unsafe { $0__$1__$2$3__init(&mut msg) } {
            Some(msg)
        } else {
            None
        }
    }
}

impl Drop for $4 {
    fn drop(&mut self) {
        unsafe { $0__$1__$2$3__fini(self) };
    }
}

#[repr(C)]
#[derive(Debug)]
struct $4SeqRaw {
    data: *mut $4,
    size: usize,
    capacity: usize,
}

/// Sequence of $4.
/// `N` is the maximum number of elements.
/// If `N` is `0`, the size is unlimited.
#[repr(C)]
#[derive(Debug)]
pub struct $4Seq<const N: usize> {
    data: *mut $4,
    size: usize,
    capacity: usize,
}

impl<const N: usize> $4Seq<N> {
    /// Create a sequence of.
    /// `N` represents the maximum number of elements.
    /// If `N` is `0`, the sequence is unlimited.
    pub fn new(size: usize) -> Option<Self> {
        if N != 0 && size > N {
            // the size exceeds in the maximum number
            return None;
        }

        let mut msg: $4SeqRaw = unsafe { std::mem::MaybeUninit::zeroed().assume_init() };
        if unsafe { $0__$1__$2$3__Sequence__init(&mut msg, size) } {
            Some(Self {data: msg.data, size: msg.size, capacity: msg.capacity })
        } else {
            None
        }
    }

    pub fn null() -> Self {
        let msg: $4SeqRaw = unsafe { std::mem::MaybeUninit::zeroed().assume_init() };
        Self {data: msg.data, size: msg.size, capacity: msg.capacity }
    }

    pub fn as_slice(&self) -> &[$4] {
        if self.data.is_null() {
            &[]
        } else {
            let s = unsafe { std::slice::from_raw_parts(self.data, self.size) };
            s
        }
    }

    pub fn as_slice_mut(&mut self) -> &mut [$4] {
        if self.data.is_null() {
            &mut []
        } else {
            let s = unsafe { std::slice::from_raw_parts_mut(self.data, self.size) };
            s
        }
    }

    pub fn iter(&self) -> std::slice::Iter<'_, $4> {
        self.as_slice().iter()
    }

    pub fn iter_mut(&mut self) -> std::slice::IterMut<'_, $4> {
        self.as_slice_mut().iter_mut()
    }

    pub fn len(&self) -> usize {
        self.as_slice().len()
    }

    pub fn is_empty(&self) -> bool {
        self.len() == 0
    }
}

impl<const N: usize> Drop for $4Seq<N> {
    fn drop(&mut self) {
        let mut msg = $4SeqRaw{data: self.data, size: self.size, capacity: self.capacity};
        unsafe { $0__$1__$2$3__Sequence__fini(&mut msg) };
    }
}

unsafe impl<const N: usize> Send for $4Seq<N> {}
unsafe impl<const N: usize> Sync for $4Seq<N> {}
";

/// The type support of a message. `$0` is the package, `$1` the message.
pub const TYPE_SUPPORT: &'static str = "
impl TypeSupport for $1 {
    fn type_support() -> *const rcl::rosidl_message_type_support_t {
        unsafe {
            rosidl_typesupport_c__get_message_type_support_handle__$0__msg__$1()
        }
    }
}
";

/// Equality of a record and of its sequences, handed on to the native
/// functions. The holes are those of [`IMPL`].
pub const EQUALITY: &'static str = "
impl PartialEq for $4 {
    fn eq(&self, other: &Self) -> bool {
        unsafe {
            $0__$1__$2$3__are_equal(self, other)
        }
    }
}

impl<const N: usize> PartialEq for $4Seq<N> {
    fn eq(&self, other: &Self) -> bool {
        unsafe {
            let msg1 = $4SeqRaw{data: self.data, size: self.size, capacity: self.capacity};
            let msg2 = $4SeqRaw{data: other.data, size: other.size, capacity: other.capacity};
            $0__$1__$2$3__Sequence__are_equal(&msg1, &msg2)
        }
    }
}
";

/// The marker type of a service, which binds its two halves together, and
/// the type support of the three. `$0` is the package, `$1` the service.
pub const SERVICE: &'static str = "
pub struct $1;

impl ServiceMsg for $1 {
    type Request = $1Request;
    type Response = $1Response;
    fn type_support() -> *const rcl::rosidl_service_type_support_t {
        unsafe {
            rosidl_typesupport_c__get_service_type_support_handle__$0__srv__$1()
        }
    }
}

impl TypeSupport for $1Request {
    fn type_support() -> *const rcl::rosidl_message_type_support_t {
        unsafe {
            rosidl_typesupport_c__get_message_type_support_handle__$0__srv__$1_Request()
        }
    }
}

impl TypeSupport for $1Response {
    fn type_support() -> *const rcl::rosidl_message_type_support_t {
        unsafe {
            rosidl_typesupport_c__get_message_type_support_handle__$0__srv__$1_Response()
        }
    }
}
";

/// Whether a record belongs to a message or to a service.
#[derive(Debug, Clone, Copy, PartialEq, Eq)]
pub enum MsgOrSrv {
    Msg,
    Srv,
}

impl MsgOrSrv {
    /// The category as the names of the native functions hold it.
    pub open spec fn mid(self) -> Seq<char> {
        match self {
            MsgOrSrv::Msg => "msg"@,
            MsgOrSrv::Srv => "srv"@,
        }
    }

    /// The category as the names of the native functions hold it.
    pub fn mid_str(&self) -> (mid: &'static str)
        ensures
            mid@ == self.mid(),
    {
        match self {
            MsgOrSrv::Msg => "msg",
            MsgOrSrv::Srv => "srv",
        }
    }
}

/// A constant: `pub const name: ty = value;`, and the comment behind it.
pub open spec fn const_line(
    name: Seq<char>,
    ty: Seq<char>,
    value: Seq<char>,
    comment: Option<Seq<char>>,
) -> Seq<char> {
    let line = "pub const "@ + name + ": "@ + ty + " = "@ + value + ";"@;
    match comment {
        Some(c) => line + " //"@ + c,
        None => line,
    }
}

/// A field: `pub name: ty,`, indented, and the comment behind it.
pub open spec fn field_line(name: Seq<char>, ty: Seq<char>, comment: Option<Seq<char>>) -> Seq<
    char,
> {
    let line = "    pub "@ + name + ": "@ + ty + ","@;
    match comment {
        Some(c) => line + " //"@ + c,
        None => line,
    }
}

/// The imports of a message file.
pub open spec fn msg_imports(path: Seq<char>, disable_common_interfaces: bool) -> Seq<Seq<char>> {
    let always = seq![
        "use super::*;"@,
        "use super::super::super::*;"@,
        "use "@ + path + "::msg::*;"@,
        "use "@ + path + "::rcl;"@,
    ];
    if disable_common_interfaces {
        always
    } else {
        always.push("use "@ + path + "::msg::common_interfaces::*;"@)
    }
}

/// The imports of a service file.
pub open spec fn srv_imports(path: Seq<char>) -> Seq<Seq<char>> {
    seq![
        "use super::super::*;"@,
        "use super::super::super::*;"@,
        "use "@ + path + "::msg::*;"@,
        "use "@ + path + "::rcl;"@,
        "use "@ + path + "::msg::common_interfaces::*;"@,
    ]
}

/// The record `name` with the given fields, laid out as the native
/// runtime lays it out. A record without fields gets the placeholder field.
pub open spec fn record_lines(name: Seq<char>, fields: Seq<Seq<char>>) -> Seq<Seq<char>> {
    seq![""@, "#[repr(C)]"@, "#[derive(Debug)]"@, "pub struct "@ + name + " {"@] + (if fields.len()
        == 0 {
        seq![UNUSED@]
    } else {
        fields
    }) + seq!["}"@]
}

/// The declarations of the native functions of the message `name` of the
/// package `module`.
pub open spec fn cfun_msg(module: Seq<char>, name: Seq<char>) -> Seq<char> {
    expand(CFUN_MSG@, seq![module, name])
}

/// The declarations of the native functions of the service `name` of the
/// package `module`.
pub open spec fn cfun_srv(module: Seq<char>, name: Seq<char>) -> Seq<char> {
    expand(CFUN_SRV@, seq![module, name])
}

/// The arguments of [`IMPL`] and [`EQUALITY`] for the record `name + req_resp`.
pub open spec fn record_args(
    module: Seq<char>,
    name: Seq<char>,
    req_resp: Seq<char>,
    c_func_mid: Seq<char>,
    kind: MsgOrSrv,
) -> Seq<Seq<char>> {
    seq![module, kind.mid(), name, c_func_mid, name + req_resp]
}

/// The lifecycle of the record `name + req_resp` and its sequence type.
pub open spec fn impl_text(
    module: Seq<char>,
    name: Seq<char>,
    req_resp: Seq<char>,
    c_func_mid: Seq<char>,
    kind: MsgOrSrv,
) -> Seq<char> {
    expand(IMPL@, record_args(module, name, req_resp, c_func_mid, kind))
}

/// Equality of the record `name + req_resp` and of its sequences.
pub open spec fn equality_text(
    module: Seq<char>,
    name: Seq<char>,
    req_resp: Seq<char>,
    c_func_mid: Seq<char>,
    kind: MsgOrSrv,
) -> Seq<char> {
    expand(EQUALITY@, record_args(module, name, req_resp, c_func_mid, kind))
}

/// The type support and the equality of the message `name`.
pub open spec fn traits_msg(module: Seq<char>, name: Seq<char>) -> Seq<char> {
    expand(TYPE_SUPPORT@, seq![module, name]) + equality_text(
        module,
        name,
        ""@,
        ""@,
        MsgOrSrv::Msg,
    )
}

/// The marker type of the service `name` and the type support of the
/// service and its halves.
pub open spec fn service_text(module: Seq<char>, name: Seq<char>) -> Seq<char> {
    expand(SERVICE@, seq![module, name])
}

/// What closes a message file: the lifecycle of the message, then its type
/// support and equality.
pub open spec fn impl_and_seq_msg(module: Seq<char>, name: Seq<char>) -> Seq<Seq<char>> {
    seq![impl_text(module, name, ""@, ""@, MsgOrSrv::Msg), traits_msg(module, name)]
}

/// What closes a service file: the lifecycle of the request and of the
/// response, the marker type, and the equality of the request and of the
/// response.
pub open spec fn impl_and_seq_srv(module: Seq<char>, name: Seq<char>) -> Seq<Seq<char>> {
    seq![
        impl_text(module, name, "Request"@, "_Request"@, MsgOrSrv::Srv),
        impl_text(module, name, "Response"@, "_Response"@, MsgOrSrv::Srv),
        service_text(module, name),
        equality_text(module, name, "Request"@, "_Request"@, MsgOrSrv::Srv),
        equality_text(module, name, "Response"@, "_Response"@, MsgOrSrv::Srv),
    ]
}

/// Appends one line.
pub fn push_line(lines: &mut VecDeque<String>, line: String)
    ensures
        texts(final(lines)@) == texts(old(lines)@).push(line@),
{
    lines.push_back(line);
    assert(texts(lines@) =~= texts(old(lines)@).push(line@));
}

/// Appends the lines of `more`, in their order.
pub fn push_lines(lines: &mut VecDeque<String>, more: &Vec<String>)
    ensures
        texts(final(lines)@) == texts(old(lines)@) + texts(more@),
{
    let mut i: usize = 0;
    while i < more.len()
        invariant
            i <= more.len(),
            texts(lines@) == texts(old(lines)@) + texts(more@).take(i as int),
        decreases more.len() - i,
    {
        push_line(lines, more[i].clone());
        i += 1;
        assert(texts(lines@) =~= texts(old(lines)@) + texts(more@).take(i as int));
    }
    assert(texts(more@).take(more.len() as int) =~= texts(more@));
}

/// Appends the declarations of the native functions of a message.
pub fn gen_cfun_msg(lines: &mut VecDeque<String>, module_name: &str, msg_type_name: &str)
    ensures
        texts(final(lines)@) == texts(old(lines)@).push(
            cfun_msg(module_name@, msg_type_name@),
        ),
{
    let args = [module_name, msg_type_name];
    assert(views(args@) =~= seq![module_name@, msg_type_name@]);
    push_line(lines, fill(CFUN_MSG, &args));
}

/// Appends the declarations of the native functions of a service.
pub fn gen_cfun_srv(lines: &mut VecDeque<String>, module_name: &str, srv_type_name: &str)
    ensures
        texts(final(lines)@) == texts(old(lines)@).push(
            cfun_srv(module_name@, srv_type_name@),
        ),
{
    let args = [module_name, srv_type_name];
    assert(views(args@) =~= seq![module_name@, srv_type_name@]);
    push_line(lines, fill(CFUN_SRV, &args));
}

/// Fills a template of a record.
fn fill_record(
    template: &str,
    module_name: &str,
    name: &str,
    req_resp: &str,
    c_func_mid: &str,
    msg_or_srv: MsgOrSrv,
) -> (text: String)
    ensures
        text@ == expand(
            template@,
            record_args(module_name@, name@, req_resp@, c_func_mid@, msg_or_srv),
        ),
{
    let mut full = String::from_str(name);
    full.append(req_resp);
    let args = [module_name, msg_or_srv.mid_str(), name, c_func_mid, full.as_str()];
    assert(views(args@) =~= record_args(module_name@, name@, req_resp@, c_func_mid@, msg_or_srv));
    fill(template, &args)
}

/// The lifecycle of the record `name + req_resp` and its sequence type:
/// construction and destruction through the native functions, the
/// sequence with its capacity, its views, its iteration and its length.
pub fn gen_impl(
    module_name: &str,
    name: &str,
    req_resp: &str,
    c_func_mid: &str,
    msg_or_srv: MsgOrSrv,
) -> (text: String)
    ensures
        text@ == impl_text(module_name@, name@, req_resp@, c_func_mid@, msg_or_srv),
{
    fill_record(IMPL, module_name, name, req_resp, c_func_mid, msg_or_srv)
}

/// Equality of the record `name + req_resp` and of its sequences, handed
/// on to the native functions.
pub fn gen_equality(
    module_name: &str,
    name: &str,
    req_resp: &str,
    c_func_mid: &str,
    msg_or_srv: MsgOrSrv,
) -> (text: String)
    ensures
        text@ == equality_text(module_name@, name@, req_resp@, c_func_mid@, msg_or_srv),
{
    fill_record(EQUALITY, module_name, name, req_resp, c_func_mid, msg_or_srv)
}

/// Appends what closes a message file.
pub fn gen_impl_and_seq_msg(lines: &mut VecDeque<String>, module_name: &str, msg_type_name: &str)
    ensures
        texts(final(lines)@) == texts(old(lines)@) + impl_and_seq_msg(
            module_name@,
            msg_type_name@,
        ),
{
    let impl_str = gen_impl(module_name, msg_type_name, "", "", MsgOrSrv::Msg);
    let args = [module_name, msg_type_name];
    assert(views(args@) =~= seq![module_name@, msg_type_name@]);
    let mut impl_trait_str = fill(TYPE_SUPPORT, &args);
    let equality = gen_equality(module_name, msg_type_name, "", "", MsgOrSrv::Msg);
    impl_trait_str.append(equality.as_str());
    push_line(lines, impl_str);
    push_line(lines, impl_trait_str);
    assert(texts(lines@) =~= texts(old(lines)@) + impl_and_seq_msg(
        module_name@,
        msg_type_name@,
    ));
}

/// Appends what closes a service file.
pub fn gen_impl_and_seq_srv(lines: &mut VecDeque<String>, module_name: &str, srv_type_name: &str)
    ensures
        texts(final(lines)@) == texts(old(lines)@) + impl_and_seq_srv(
            module_name@,
            srv_type_name@,
        ),
{
    let impl_str_req = gen_impl(module_name, srv_type_name, "Request", "_Request", MsgOrSrv::Srv);
    let impl_str_resp = gen_impl(
        module_name,
        srv_type_name,
        "Response",
        "_Response",
        MsgOrSrv::Srv,
    );
    let args = [module_name, srv_type_name];
    assert(views(args@) =~= seq![module_name@, srv_type_name@]);
    let struct_srv = fill(SERVICE, &args);
    let eq_req = gen_equality(module_name, srv_type_name, "Request", "_Request", MsgOrSrv::Srv);
    let eq_resp = gen_equality(
        module_name,
        srv_type_name,
        "Response",
        "_Response",
        MsgOrSrv::Srv,
    );
    push_line(lines, impl_str_req);
    push_line(lines, impl_str_resp);
    push_line(lines, struct_srv);
    push_line(lines, eq_req);
    push_line(lines, eq_resp);
    assert(texts(lines@) =~= texts(old(lines)@) + impl_and_seq_srv(
        module_name@,
        srv_type_name@,
    ));
}

/// Appends the record `name` with the given fields.
pub fn gen_record(lines: &mut VecDeque<String>, name: &str, req_resp: &str, fields: Vec<String>)
    ensures
        texts(final(lines)@) == texts(old(lines)@) + record_lines(
            name@ + req_resp@,
            texts(fields@),
        ),
{
    push_line(lines, String::from_str(""));
    push_line(lines, String::from_str("#[repr(C)]"));
    push_line(lines, String::from_str("#[derive(Debug)]"));
    let mut head = String::from_str("pub struct ");
    head.append(name);
    head.append(req_resp);
    head.append(" {");
    assert(head@ =~= "pub struct "@ + (name@ + req_resp@) + " {"@);
    push_line(lines, head);
    let ghost shown = texts(fields@);
    if fields.len() == 0 {
        push_line(lines, String::from_str(UNUSED));
    } else {
        push_lines(lines, &fields);
    }
    push_line(lines, String::from_str("}"));
    assert(texts(lines@) =~= texts(old(lines)@) + record_lines(
        name@ + req_resp@,
        shown,
    ));
}

} // verus!
