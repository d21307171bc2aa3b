use cbor_data::CborOwned;
use cbor_diag::{parse_bytes, parse_diag};
use recbor::args::{Arg, CommandError, Stored, Written};
use recbor::commands::cbor_arrappend::cbor_arr_append;
use recbor::commands::cbor_arrindex::cbor_arr_index;
use recbor::commands::cbor_arrinsert::cbor_arr_insert;
use recbor::commands::cbor_arrlen::cbor_arr_len;
use recbor::commands::cbor_arrpop::cbor_arr_pop;
use recbor::commands::cbor_arrtrim::cbor_arr_trim;
use recbor::commands::cbor_clear::cbor_clear;
use recbor::commands::cbor_debug::cbor_debug;
use recbor::commands::cbor_del::cbor_del;
use recbor::commands::cbor_get::cbor_get;
use recbor::commands::cbor_mapappend::cbor_map_append;
use recbor::commands::cbor_mapkeys::cbor_mapkeys;
use recbor::commands::cbor_maplen::cbor_map_len;
use recbor::commands::cbor_mget::{cbor_mget, MgetError};
use recbor::commands::cbor_numincrby::cbor_num_incr_by;
use recbor::commands::cbor_nummultby::cbor_num_mult_by;
use recbor::commands::cbor_resp::cbor_resp;
use recbor::commands::cbor_set::cbor_set;
use recbor::commands::cbor_strappend::cbor_str_append;
use recbor::commands::cbor_strlen::cbor_str_len;
use recbor::commands::cbor_toggle::cbor_toggle;
use recbor::commands::cbor_type::cbor_type;
use recbor::commands::num_operation::Number;
use recbor::document::Document;
use recbor::reply::Reply;

fn cmd_bytes(diag: &str) -> Vec<u8> {
    parse_diag(diag).unwrap().to_bytes()
}

fn cmd_doc(diag: &str) -> Document {
    let canonical = CborOwned::canonical(cmd_bytes(diag)).unwrap();
    Document::checked(canonical.as_slice()).unwrap()
}

fn cmd_diag(doc: &Document) -> String {
    parse_bytes(doc.as_slice()).unwrap().to_diag()
}

/// The arguments as a host would hand them over: each with the integer
/// that its text spells, if it spells one.
fn cmd_args<'a>(raw: &'a [Vec<u8>]) -> Vec<Arg<'a>> {
    raw.iter()
        .map(|bytes| Arg {
            bytes: bytes.as_slice(),
            integer: std::str::from_utf8(bytes)
                .ok()
                .and_then(|text| text.parse::<i64>().ok()),
        })
        .collect()
}

fn cmd_raw(name: &str, rest: &[&[u8]]) -> Vec<Vec<u8>> {
    let mut raw = vec![name.as_bytes().to_vec()];
    raw.extend(rest.iter().map(|bytes| bytes.to_vec()));
    raw
}

fn cmd_float_sum(a: u64, b: u64) -> u64 {
    (f64::from_bits(a) + f64::from_bits(b)).to_bits()
}

fn cmd_float_product(v1: Number, v2: Number) -> u64 {
    let as_float = |n: Number| match n {
        Number::Signed(value) => value as f64,
        Number::Unsigned(value) => value as f64,
        Number::Float(bits) => f64::from_bits(bits),
    };
    (as_float(v1) * as_float(v2)).to_bits()
}

fn cmd_written(result: Result<Written, CommandError>) -> (Option<String>, Reply, &'static str) {
    let written = result.unwrap();
    (
        written.new_value.as_ref().map(cmd_diag),
        written.reply,
        written.event,
    )
}

fn cmd_failure<T>(result: Result<T, CommandError>) -> CommandError {
    match result {
        Ok(_) => panic!("the command did not fail"),
        Err(e) => e,
    }
}

#[test]
fn arr_append_command() {
    let doc = cmd_doc(r#"{"foo":["a"],"bar":1}"#);
    let raw = cmd_raw(
        "cbor.arrappend",
        &[b"key", &cmd_bytes(r#"["$", {"*": 1}]"#), &cmd_bytes(r#""b""#), &cmd_bytes("2")],
    );
    let (new_value, reply, event) = cmd_written(cbor_arr_append(&cmd_args(&raw), Stored::Found(&doc)));
    assert_eq!(Some(r#"{"foo":["a","b",2],"bar":1}"#.to_string()), new_value);
    assert_eq!(Reply::Array(vec![Reply::Integer(3), Reply::Null]), reply);
    assert_eq!("cbor.arrappend", event);
}

#[test]
fn arr_append_command_failures() {
    let doc = cmd_doc("[1]");
    let path = cmd_bytes(r#"["$"]"#);
    let one = cmd_bytes("1");

    let raw = cmd_raw("cbor.arrappend", &[]);
    assert_eq!(CommandError::WrongArity, cmd_failure(cbor_arr_append(&cmd_args(&raw), Stored::Found(&doc))));
    let raw = cmd_raw("cbor.arrappend", &[b"key"]);
    assert_eq!(CommandError::WrongArity, cmd_failure(cbor_arr_append(&cmd_args(&raw), Stored::Found(&doc))));
    let raw = cmd_raw("cbor.arrappend", &[b"key", &path]);
    assert_eq!(CommandError::WrongArity, cmd_failure(cbor_arr_append(&cmd_args(&raw), Stored::Found(&doc))));

    // a value that is no CBOR item is found before a path that is no path
    let raw = cmd_raw("cbor.arrappend", &[b"key", b"nopath", &one, &[0x82, 0x01]]);
    assert_eq!(CommandError::InvalidCbor, cmd_failure(cbor_arr_append(&cmd_args(&raw), Stored::Found(&doc))));
    let raw = cmd_raw("cbor.arrappend", &[b"key", b"nopath", &one]);
    assert_eq!(CommandError::InvalidPath, cmd_failure(cbor_arr_append(&cmd_args(&raw), Stored::Found(&doc))));
    // a well-formed item that spells no path
    let raw = cmd_raw("cbor.arrappend", &[b"key", &one, &one]);
    assert_eq!(CommandError::InvalidPath, cmd_failure(cbor_arr_append(&cmd_args(&raw), Stored::Found(&doc))));

    let raw = cmd_raw("cbor.arrappend", &[b"key", &path, &one]);
    assert_eq!(CommandError::LookupFailed, cmd_failure(cbor_arr_append(&cmd_args(&raw), Stored::Failed)));
    assert_eq!(CommandError::NonexistentKey, cmd_failure(cbor_arr_append(&cmd_args(&raw), Stored::Missing)));
}

#[test]
fn arr_index_command() {
    let doc = cmd_doc(r#"{"foo":12,"bar":["a","b","c"]}"#);
    let wildcard = cmd_bytes(r#"["$", {"*": 1}]"#);

    let raw = cmd_raw("cbor.arrindex", &[b"key", &wildcard, &cmd_bytes(r#""d""#), b"0", b"4"]);
    assert_eq!(
        Ok(Reply::Array(vec![Reply::Null, Reply::Integer(-1)])),
        cbor_arr_index(&cmd_args(&raw), Stored::Found(&doc))
    );

    // start defaults to 0 and stop to the end
    let raw = cmd_raw("cbor.arrindex", &[b"key", &wildcard, &cmd_bytes(r#""c""#)]);
    assert_eq!(
        Ok(Reply::Array(vec![Reply::Null, Reply::Integer(2)])),
        cbor_arr_index(&cmd_args(&raw), Stored::Found(&doc))
    );
    let raw = cmd_raw("cbor.arrindex", &[b"key", &wildcard, &cmd_bytes(r#""a""#), b"1"]);
    assert_eq!(
        Ok(Reply::Array(vec![Reply::Null, Reply::Integer(-1)])),
        cbor_arr_index(&cmd_args(&raw), Stored::Found(&doc))
    );

    let raw = cmd_raw("cbor.arrindex", &[b"key", &wildcard]);
    assert_eq!(Err(CommandError::WrongArity), cbor_arr_index(&cmd_args(&raw), Stored::Found(&doc)));
    let raw = cmd_raw("cbor.arrindex", &[b"key", b"nopath", &[0xff], b"x"]);
    assert_eq!(Err(CommandError::NotAnInteger), cbor_arr_index(&cmd_args(&raw), Stored::Found(&doc)));
    let raw = cmd_raw("cbor.arrindex", &[b"key", b"nopath", &[0xff], b"1", b"x"]);
    assert_eq!(Err(CommandError::NotAnInteger), cbor_arr_index(&cmd_args(&raw), Stored::Found(&doc)));
    let raw = cmd_raw("cbor.arrindex", &[b"key", b"nopath", &[0xff], b"1"]);
    assert_eq!(Err(CommandError::InvalidPath), cbor_arr_index(&cmd_args(&raw), Stored::Found(&doc)));
    let raw = cmd_raw("cbor.arrindex", &[b"key", &wildcard, &[0xff], b"1"]);
    assert_eq!(Err(CommandError::InvalidCbor), cbor_arr_index(&cmd_args(&raw), Stored::Found(&doc)));
    let raw = cmd_raw("cbor.arrindex", &[b"key", &wildcard, &[0x01]]);
    assert_eq!(Err(CommandError::NonexistentKey), cbor_arr_index(&cmd_args(&raw), Stored::Missing));
}

#[test]
fn arr_insert_command() {
    let doc = cmd_doc(r#"["a","b","c"]"#);
    let root = cmd_bytes(r#""$""#);

    let raw = cmd_raw(
        "cbor.arrinsert",
        &[b"key", &root, b"-1", &cmd_bytes(r#""d""#), &cmd_bytes(r#""e""#)],
    );
    let (new_value, reply, event) = cmd_written(cbor_arr_insert(&cmd_args(&raw), Stored::Found(&doc)));
    assert_eq!(Some(r#"["a","b","d","e","c"]"#.to_string()), new_value);
    assert_eq!(Reply::Array(vec![Reply::Integer(5)]), reply);
    assert_eq!("cbor.arrinsert", event);

    let raw = cmd_raw("cbor.arrinsert", &[b"key", &root]);
    assert_eq!(CommandError::WrongArity, cmd_failure(cbor_arr_insert(&cmd_args(&raw), Stored::Found(&doc))));
    // the index is read before the values are counted
    let raw = cmd_raw("cbor.arrinsert", &[b"key", &root, b"x"]);
    assert_eq!(CommandError::NotAnInteger, cmd_failure(cbor_arr_insert(&cmd_args(&raw), Stored::Found(&doc))));
    let raw = cmd_raw("cbor.arrinsert", &[b"key", &root, b"1"]);
    assert_eq!(CommandError::WrongArity, cmd_failure(cbor_arr_insert(&cmd_args(&raw), Stored::Found(&doc))));
    let raw = cmd_raw("cbor.arrinsert", &[b"key", b"nopath", b"1", &[0xff]]);
    assert_eq!(CommandError::InvalidCbor, cmd_failure(cbor_arr_insert(&cmd_args(&raw), Stored::Found(&doc))));
    let raw = cmd_raw("cbor.arrinsert", &[b"key", b"nopath", b"1", &[0x01]]);
    assert_eq!(CommandError::InvalidPath, cmd_failure(cbor_arr_insert(&cmd_args(&raw), Stored::Found(&doc))));
    let raw = cmd_raw("cbor.arrinsert", &[b"key", &root, b"1", &[0x01]]);
    assert_eq!(CommandError::NonexistentKey, cmd_failure(cbor_arr_insert(&cmd_args(&raw), Stored::Missing)));
}

#[test]
fn arr_pop_command() {
    let doc = cmd_doc(r#"["a","b","c"]"#);

    // the path defaults to the root and the index to -1
    let raw = cmd_raw("cbor.arrpop", &[b"key"]);
    let (new_value, reply, event) = cmd_written(cbor_arr_pop(&cmd_args(&raw), Stored::Found(&doc)));
    assert_eq!(Some(r#"["a","b"]"#.to_string()), new_value);
    assert_eq!(Reply::Array(vec![Reply::StringBuffer(cmd_bytes(r#""c""#))]), reply);
    assert_eq!("cbor.arrpop", event);

    let raw = cmd_raw("cbor.arrpop", &[b"key", &cmd_bytes(r#""$""#), b"0"]);
    let (new_value, reply, _) = cmd_written(cbor_arr_pop(&cmd_args(&raw), Stored::Found(&doc)));
    assert_eq!(Some(r#"["b","c"]"#.to_string()), new_value);
    assert_eq!(Reply::Array(vec![Reply::StringBuffer(cmd_bytes(r#""a""#))]), reply);

    // nothing to pop: a document all the same, and no reply for the array
    let raw = cmd_raw("cbor.arrpop", &[b"key", &cmd_bytes(r#""$""#), b"3"]);
    let (new_value, reply, _) = cmd_written(cbor_arr_pop(&cmd_args(&raw), Stored::Found(&doc)));
    assert_eq!(Some(r#"["a","b","c"]"#.to_string()), new_value);
    assert_eq!(Reply::Array(vec![]), reply);

    let raw = cmd_raw("cbor.arrpop", &[]);
    assert_eq!(CommandError::WrongArity, cmd_failure(cbor_arr_pop(&cmd_args(&raw), Stored::Found(&doc))));
    let raw = cmd_raw("cbor.arrpop", &[b"key", b"nopath", b"x"]);
    assert_eq!(CommandError::InvalidPath, cmd_failure(cbor_arr_pop(&cmd_args(&raw), Stored::Found(&doc))));
    let raw = cmd_raw("cbor.arrpop", &[b"key", &cmd_bytes(r#""$""#), b"x"]);
    assert_eq!(CommandError::NotAnInteger, cmd_failure(cbor_arr_pop(&cmd_args(&raw), Stored::Found(&doc))));
    let raw = cmd_raw("cbor.arrpop", &[b"key"]);
    assert_eq!(CommandError::LookupFailed, cmd_failure(cbor_arr_pop(&cmd_args(&raw), Stored::Failed)));
}

#[test]
fn arr_trim_command() {
    let doc = cmd_doc(r#"["a","b","c","d","e"]"#);

    let raw = cmd_raw("cbor.arrtrim", &[b"key", &cmd_bytes(r#""$""#), b"1", b"3"]);
    let (new_value, reply, event) = cmd_written(cbor_arr_trim(&cmd_args(&raw), Stored::Found(&doc)));
    assert_eq!(Some(r#"["b","c","d"]"#.to_string()), new_value);
    assert_eq!(Reply::Array(vec![Reply::Integer(3)]), reply);
    assert_eq!("cbor.arrtrim", event);

    // start defaults to 0 and stop to -1
    let raw = cmd_raw("cbor.arrtrim", &[b"key"]);
    let (new_value, reply, _) = cmd_written(cbor_arr_trim(&cmd_args(&raw), Stored::Found(&doc)));
    assert_eq!(Some(r#"["a","b","c","d","e"]"#.to_string()), new_value);
    assert_eq!(Reply::Array(vec![Reply::Integer(5)]), reply);

    let raw = cmd_raw("cbor.arrtrim", &[b"key", &cmd_bytes(r#""$""#), b"3"]);
    let (new_value, _, _) = cmd_written(cbor_arr_trim(&cmd_args(&raw), Stored::Found(&doc)));
    assert_eq!(Some(r#"["d","e"]"#.to_string()), new_value);

    let raw = cmd_raw("cbor.arrtrim", &[b"key", &cmd_bytes(r#""$""#), b"1", b"y"]);
    assert_eq!(CommandError::NotAnInteger, cmd_failure(cbor_arr_trim(&cmd_args(&raw), Stored::Found(&doc))));
    let raw = cmd_raw("cbor.arrtrim", &[b"key"]);
    assert_eq!(CommandError::NonexistentKey, cmd_failure(cbor_arr_trim(&cmd_args(&raw), Stored::Missing)));
}

#[test]
fn read_commands() {
    let doc = cmd_doc(r#"{"a":[1,2],"b":{"x":1,"y":2,"z":3},"c":"héllo","d":true}"#);
    let wildcard = cmd_bytes(r#"["$", {"*": 1}]"#);
    let raw = cmd_raw("cbor.read", &[b"key", &wildcard]);
    let args = cmd_args(&raw);

    assert_eq!(
        Ok(Reply::Array(vec![Reply::Integer(2), Reply::Null, Reply::Null, Reply::Null])),
        cbor_arr_len(&args, Stored::Found(&doc))
    );
    assert_eq!(
        Ok(Reply::Array(vec![Reply::Null, Reply::Integer(3), Reply::Null, Reply::Null])),
        cbor_map_len(&args, Stored::Found(&doc))
    );
    assert_eq!(
        Ok(Reply::Array(vec![
            Reply::Null,
            Reply::Array(vec![
                Reply::StringBuffer(cmd_bytes(r#""x""#)),
                Reply::StringBuffer(cmd_bytes(r#""y""#)),
                Reply::StringBuffer(cmd_bytes(r#""z""#)),
            ]),
            Reply::Null,
            Reply::Null
        ])),
        cbor_mapkeys(&args, Stored::Found(&doc))
    );
    assert_eq!(
        Ok(Reply::Array(vec![Reply::Null, Reply::Null, Reply::Integer(6), Reply::Null])),
        cbor_str_len(&args, Stored::Found(&doc))
    );
    assert_eq!(
        Ok(Reply::Array(vec![
            Reply::BulkString("array".to_string()),
            Reply::BulkString("map".to_string()),
            Reply::BulkString("string".to_string()),
            Reply::BulkString("boolean".to_string()),
        ])),
        cbor_type(&args, Stored::Found(&doc))
    );
    assert_eq!(
        Ok(Reply::Array(vec![
            Reply::Array(vec![Reply::Integer(1), Reply::Integer(2)]),
            Reply::Entries(vec![
                Reply::BulkString("x".to_string()),
                Reply::Integer(1),
                Reply::BulkString("y".to_string()),
                Reply::Integer(2),
                Reply::BulkString("z".to_string()),
                Reply::Integer(3),
            ]),
            Reply::BulkString("héllo".to_string()),
            Reply::Boolean(true),
        ])),
        cbor_resp(&args, Stored::Found(&doc))
    );

    // the path defaults to the root
    let raw = cmd_raw("cbor.read", &[b"key"]);
    let args = cmd_args(&raw);
    assert_eq!(Ok(Reply::Array(vec![Reply::Null])), cbor_arr_len(&args, Stored::Found(&doc)));
    assert_eq!(Ok(Reply::Array(vec![Reply::Integer(4)])), cbor_map_len(&args, Stored::Found(&doc)));
    assert_eq!(
        Ok(Reply::Array(vec![Reply::BulkString("map".to_string())])),
        cbor_type(&args, Stored::Found(&doc))
    );
    assert_eq!(Err(CommandError::NonexistentKey), cbor_type(&args, Stored::Missing));
    assert_eq!(Err(CommandError::LookupFailed), cbor_str_len(&args, Stored::Failed));

    let raw = cmd_raw("cbor.read", &[]);
    assert_eq!(Err(CommandError::WrongArity), cbor_mapkeys(&cmd_args(&raw), Stored::Found(&doc)));
    let raw = cmd_raw("cbor.read", &[b"key", b"nopath"]);
    assert_eq!(Err(CommandError::InvalidPath), cbor_resp(&cmd_args(&raw), Stored::Missing));
}

#[test]
fn resp_reads_wide_integers_as_signed() {
    let doc = cmd_doc("[18446744073709551615, -18446744073709551616, 9223372036854775808, -9223372036854775809, simple(32)]");
    let raw = cmd_raw("cbor.resp", &[b"key"]);
    assert_eq!(
        Ok(Reply::Array(vec![Reply::Array(vec![
            Reply::Integer(-1),
            Reply::Integer(0),
            Reply::Integer(i64::MIN),
            Reply::Integer(i64::MAX),
            Reply::Integer(32),
        ])])),
        cbor_resp(&cmd_args(&raw), Stored::Found(&doc))
    );
}

#[test]
fn get_command() {
    let doc = cmd_doc("[1,2,3]");

    let raw = cmd_raw("cbor.get", &[b"key", &cmd_bytes(r##"["$", {"#": 1}]"##)]);
    assert_eq!(
        Ok(Reply::StringBuffer(cmd_bytes("[2]"))),
        cbor_get(&cmd_args(&raw), Stored::Found(&doc))
    );
    let raw = cmd_raw("cbor.get", &[b"key"]);
    assert_eq!(
        Ok(Reply::StringBuffer(cmd_bytes("[[1,2,3]]"))),
        cbor_get(&cmd_args(&raw), Stored::Found(&doc))
    );
    // an absent key is answered with null, not with an empty array
    assert_eq!(Ok(Reply::Null), cbor_get(&cmd_args(&raw), Stored::Missing));
    let raw = cmd_raw("cbor.get", &[b"key", &cmd_bytes(r##"["$", {"#": 7}]"##)]);
    assert_eq!(
        Ok(Reply::StringBuffer(vec![0x80])),
        cbor_get(&cmd_args(&raw), Stored::Found(&doc))
    );
    assert_eq!(Ok(Reply::Null), cbor_get(&cmd_args(&raw), Stored::Missing));
    assert_eq!(Err(CommandError::LookupFailed), cbor_get(&cmd_args(&raw), Stored::Failed));
    let raw = cmd_raw("cbor.get", &[]);
    assert_eq!(Err(CommandError::WrongArity), cbor_get(&cmd_args(&raw), Stored::Missing));
    let raw = cmd_raw("cbor.get", &[b"key", &[0x01]]);
    assert_eq!(Err(CommandError::InvalidPath), cbor_get(&cmd_args(&raw), Stored::Missing));
}

#[test]
fn clear_del_and_toggle_commands() {
    let doc = cmd_doc(r#"{"a":[1,2],"b":true,"c":"x"}"#);
    let wildcard = cmd_bytes(r#"["$", {"*": 1}]"#);
    let raw = cmd_raw("cbor.write", &[b"key", &wildcard]);
    let args = cmd_args(&raw);

    let (new_value, reply, event) = cmd_written(cbor_clear(&args, Stored::Found(&doc)));
    assert_eq!(Some(r#"{"a":[],"b":true,"c":"x"}"#.to_string()), new_value);
    assert_eq!(Reply::Integer(1), reply);
    assert_eq!("cbor.clear", event);

    let (new_value, reply, event) = cmd_written(cbor_del(&args, Stored::Found(&doc)));
    assert_eq!(Some("{}".to_string()), new_value);
    assert_eq!(Reply::Integer(3), reply);
    assert_eq!("cbor.del", event);

    let (new_value, reply, event) = cmd_written(cbor_toggle(&args, Stored::Found(&doc)));
    assert_eq!(Some(r#"{"a":[1,2],"b":false,"c":"x"}"#.to_string()), new_value);
    assert_eq!(Reply::Array(vec![Reply::Null, Reply::Boolean(false), Reply::Null]), reply);
    assert_eq!("cbor.toggle", event);

    // without a path: the root for clear and del, an error for toggle
    let raw = cmd_raw("cbor.write", &[b"key"]);
    let args = cmd_args(&raw);
    let (new_value, reply, _) = cmd_written(cbor_clear(&args, Stored::Found(&doc)));
    assert_eq!(Some("{}".to_string()), new_value);
    assert_eq!(Reply::Integer(1), reply);
    let (new_value, reply, _) = cmd_written(cbor_del(&args, Stored::Found(&doc)));
    assert_eq!(None, new_value);
    assert_eq!(Reply::Integer(0), reply);
    assert_eq!(CommandError::WrongArity, cmd_failure(cbor_toggle(&args, Stored::Found(&doc))));

    assert_eq!(CommandError::NonexistentKey, cmd_failure(cbor_clear(&args, Stored::Missing)));
    assert_eq!(CommandError::LookupFailed, cmd_failure(cbor_del(&args, Stored::Failed)));
    let raw = cmd_raw("cbor.write", &[b"key", b"nopath"]);
    assert_eq!(CommandError::InvalidPath, cmd_failure(cbor_toggle(&cmd_args(&raw), Stored::Found(&doc))));
}

#[test]
fn map_append_command() {
    let doc = cmd_doc(r#"{"a":1}"#);
    let root = cmd_bytes(r#""$""#);
    let b = cmd_bytes(r#""b""#);
    let c = cmd_bytes(r#""c""#);
    let two = cmd_bytes("2");
    let three = cmd_bytes("3");

    let raw = cmd_raw("cbor.mapappend", &[b"key", &root, &b, &two, &c, &three]);
    let (new_value, reply, event) = cmd_written(cbor_map_append(&cmd_args(&raw), Stored::Found(&doc)));
    assert_eq!(Some(r#"{"a":1,"b":2,"c":3}"#.to_string()), new_value);
    assert_eq!(Reply::Array(vec![Reply::Integer(3)]), reply);
    assert_eq!("cbor.mapappend", event);

    let raw = cmd_raw("cbor.mapappend", &[b"key", &root]);
    assert_eq!(CommandError::WrongArity, cmd_failure(cbor_map_append(&cmd_args(&raw), Stored::Found(&doc))));
    let raw = cmd_raw("cbor.mapappend", &[b"key", &root, &b]);
    assert_eq!(CommandError::WrongArity, cmd_failure(cbor_map_append(&cmd_args(&raw), Stored::Found(&doc))));
    let raw = cmd_raw("cbor.mapappend", &[b"key", &root, &b, &two, &c]);
    assert_eq!(CommandError::WrongArity, cmd_failure(cbor_map_append(&cmd_args(&raw), Stored::Found(&doc))));
    let raw = cmd_raw("cbor.mapappend", &[b"key", b"nopath", &b, &[0xff]]);
    assert_eq!(CommandError::InvalidCbor, cmd_failure(cbor_map_append(&cmd_args(&raw), Stored::Found(&doc))));
    let raw = cmd_raw("cbor.mapappend", &[b"key", b"nopath", &b, &two]);
    assert_eq!(CommandError::InvalidPath, cmd_failure(cbor_map_append(&cmd_args(&raw), Stored::Found(&doc))));
    let raw = cmd_raw("cbor.mapappend", &[b"key", &root, &b, &two]);
    assert_eq!(CommandError::NonexistentKey, cmd_failure(cbor_map_append(&cmd_args(&raw), Stored::Missing)));
}

#[test]
fn str_append_command() {
    let doc = cmd_doc(r#"["foo", 1]"#);
    let wildcard = cmd_bytes(r#"["$", {"*": 1}]"#);

    let raw = cmd_raw("cbor.strappend", &[b"key", &wildcard, b"baz"]);
    let (new_value, reply, event) = cmd_written(cbor_str_append(&cmd_args(&raw), Stored::Found(&doc)));
    assert_eq!(Some(r#"["foobaz",1]"#.to_string()), new_value);
    assert_eq!(Reply::Array(vec![Reply::Integer(6), Reply::Null]), reply);
    assert_eq!("cbor.strappend", event);

    let raw = cmd_raw("cbor.strappend", &[b"key", &wildcard]);
    assert_eq!(CommandError::WrongArity, cmd_failure(cbor_str_append(&cmd_args(&raw), Stored::Found(&doc))));
    let raw = cmd_raw("cbor.strappend", &[b"key", b"nopath", &[0xff, 0xfe]]);
    assert_eq!(CommandError::InvalidPath, cmd_failure(cbor_str_append(&cmd_args(&raw), Stored::Found(&doc))));
    let raw = cmd_raw("cbor.strappend", &[b"key", &wildcard, &[0xff, 0xfe]]);
    assert_eq!(CommandError::NotUtf8, cmd_failure(cbor_str_append(&cmd_args(&raw), Stored::Found(&doc))));
    let raw = cmd_raw("cbor.strappend", &[b"key", &wildcard, b"baz"]);
    assert_eq!(CommandError::NonexistentKey, cmd_failure(cbor_str_append(&cmd_args(&raw), Stored::Missing)));
}

#[test]
fn numeric_commands() {
    let doc = cmd_doc("[2,-2,1.5]");
    let wildcard = cmd_bytes(r#"["$", {"*": 1}]"#);

    let raw = cmd_raw("cbor.numincrby", &[b"key", &wildcard, &cmd_bytes("1")]);
    let (new_value, reply, event) =
        cmd_written(cbor_num_incr_by(&cmd_args(&raw), Stored::Found(&doc), cmd_float_sum));
    assert_eq!(Some("[3,-1,1.5_3]".to_string()), new_value);
    assert_eq!(
        Reply::Array(vec![
            Reply::StringBuffer(cmd_bytes("3")),
            Reply::StringBuffer(cmd_bytes("-1")),
            Reply::Null
        ]),
        reply
    );
    assert_eq!("cbor.numincrby", event);

    let raw = cmd_raw("cbor.nummultby", &[b"key", &wildcard, &cmd_bytes("-2")]);
    let (new_value, reply, event) =
        cmd_written(cbor_num_mult_by(&cmd_args(&raw), Stored::Found(&doc), cmd_float_product));
    assert_eq!(Some("[-4,4,-3.0_3]".to_string()), new_value);
    assert_eq!(
        Reply::Array(vec![
            Reply::StringBuffer(cmd_bytes("-4")),
            Reply::StringBuffer(cmd_bytes("4")),
            Reply::StringBuffer(cmd_bytes("-3.0"))
        ]),
        reply
    );
    assert_eq!("cbor.nummultby", event);

    let raw = cmd_raw("cbor.numincrby", &[b"key", &wildcard]);
    assert_eq!(
        CommandError::WrongArity,
        cmd_failure(cbor_num_incr_by(&cmd_args(&raw), Stored::Found(&doc), cmd_float_sum))
    );
    let raw = cmd_raw("cbor.numincrby", &[b"key", b"nopath", &[0xff]]);
    assert_eq!(
        CommandError::InvalidPath,
        cmd_failure(cbor_num_mult_by(&cmd_args(&raw), Stored::Found(&doc), cmd_float_product))
    );
    let raw = cmd_raw("cbor.numincrby", &[b"key", &wildcard, &[0xff]]);
    assert_eq!(
        CommandError::InvalidCbor,
        cmd_failure(cbor_num_incr_by(&cmd_args(&raw), Stored::Found(&doc), cmd_float_sum))
    );
    let raw = cmd_raw("cbor.numincrby", &[b"key", &wildcard, &[0x01]]);
    assert_eq!(
        CommandError::NonexistentKey,
        cmd_failure(cbor_num_mult_by(&cmd_args(&raw), Stored::Missing, cmd_float_product))
    );
    assert_eq!(
        CommandError::LookupFailed,
        cmd_failure(cbor_num_incr_by(&cmd_args(&raw), Stored::Failed, cmd_float_sum))
    );
}

#[test]
fn set_command() {
    let doc = cmd_doc("[1,2,3]");
    let root = cmd_bytes(r#""$""#);
    let third = cmd_bytes(r##"["$", {"#": 2}]"##);
    let four = cmd_bytes("4");

    // a new document at the root
    let raw = cmd_raw("cbor.set", &[b"key", &root, &four]);
    let (new_value, reply, event) = cmd_written(cbor_set(&cmd_args(&raw), Stored::Missing));
    assert_eq!(Some("4".to_string()), new_value);
    assert_eq!(Reply::Okay, reply);
    assert_eq!("cbor.set", event);

    // a node of the stored document
    let raw = cmd_raw("cbor.set", &[b"key", &third, &four, b"xx"]);
    let (new_value, reply, _) = cmd_written(cbor_set(&cmd_args(&raw), Stored::Found(&doc)));
    assert_eq!(Some("[1,2,4]".to_string()), new_value);
    assert_eq!(Reply::Okay, reply);

    // the value is stored as it was given, not in canonical form
    let raw = cmd_raw("cbor.set", &[b"key", &root, &[0x9f, 0x01, 0xff]]);
    let written = cbor_set(&cmd_args(&raw), Stored::Missing).unwrap();
    assert_eq!(vec![0x9fu8, 0x01, 0xff], written.new_value.unwrap().as_slice().to_vec());

    // must not exist, but does: nothing stored, null
    let raw = cmd_raw("cbor.set", &[b"key", &root, &four, b"NX"]);
    let (new_value, reply, _) = cmd_written(cbor_set(&cmd_args(&raw), Stored::Found(&doc)));
    assert_eq!(None, new_value);
    assert_eq!(Reply::Null, reply);
    let (new_value, reply, _) = cmd_written(cbor_set(&cmd_args(&raw), Stored::Missing));
    assert_eq!(Some("4".to_string()), new_value);
    assert_eq!(Reply::Okay, reply);

    // must exist, but does not
    let raw = cmd_raw("cbor.set", &[b"key", &root, &four, b"Xx"]);
    let (new_value, reply, _) = cmd_written(cbor_set(&cmd_args(&raw), Stored::Missing));
    assert_eq!(None, new_value);
    assert_eq!(Reply::Null, reply);

    // no match in the stored document
    let raw = cmd_raw("cbor.set", &[b"key", &cmd_bytes(r##"["$", {"#": 7}]"##), &four]);
    let (new_value, reply, _) = cmd_written(cbor_set(&cmd_args(&raw), Stored::Found(&doc)));
    assert_eq!(None, new_value);
    assert_eq!(Reply::Okay, reply);
}

#[test]
fn set_command_failures() {
    let doc = cmd_doc("[1,2,3]");
    let root = cmd_bytes(r#""$""#);
    let third = cmd_bytes(r##"["$", {"#": 2}]"##);
    let four = cmd_bytes("4");

    let raw = cmd_raw("cbor.set", &[b"key", &root]);
    assert_eq!(CommandError::WrongArity, cmd_failure(cbor_set(&cmd_args(&raw), Stored::Missing)));
    let raw = cmd_raw("cbor.set", &[b"key", b"nopath", &[0xff], b"zz"]);
    assert_eq!(CommandError::InvalidPath, cmd_failure(cbor_set(&cmd_args(&raw), Stored::Missing)));
    let raw = cmd_raw("cbor.set", &[b"key", &root, &[0xff], b"zz"]);
    assert_eq!(CommandError::InvalidCbor, cmd_failure(cbor_set(&cmd_args(&raw), Stored::Missing)));
    let raw = cmd_raw("cbor.set", &[b"key", &root, &four, b"zz"]);
    assert_eq!(CommandError::Syntax, cmd_failure(cbor_set(&cmd_args(&raw), Stored::Missing)));
    let raw = cmd_raw("cbor.set", &[b"key", &root, &four, b"NX", b"XX"]);
    assert_eq!(CommandError::Syntax, cmd_failure(cbor_set(&cmd_args(&raw), Stored::Missing)));
    let raw = cmd_raw("cbor.set", &[b"key", &root, &four, b"NXX"]);
    assert_eq!(CommandError::Syntax, cmd_failure(cbor_set(&cmd_args(&raw), Stored::Missing)));
    let raw = cmd_raw("cbor.set", &[b"key", &root, &four, &[0xff, 0xfe]]);
    assert_eq!(CommandError::NotUtf8, cmd_failure(cbor_set(&cmd_args(&raw), Stored::Missing)));
    let raw = cmd_raw("cbor.set", &[b"key", &root, &four]);
    assert_eq!(CommandError::LookupFailed, cmd_failure(cbor_set(&cmd_args(&raw), Stored::Failed)));
    let raw = cmd_raw("cbor.set", &[b"key", &third, &four]);
    assert_eq!(CommandError::ExpectedRoot, cmd_failure(cbor_set(&cmd_args(&raw), Stored::Missing)));
    // the condition is looked at before the path
    let raw = cmd_raw("cbor.set", &[b"key", &third, &four, b"XX"]);
    let (new_value, reply, _) = cmd_written(cbor_set(&cmd_args(&raw), Stored::Missing));
    assert_eq!(None, new_value);
    assert_eq!(Reply::Null, reply);
    assert_eq!(Some("[1,2,3]".to_string()), Some(cmd_diag(&doc)));
}

#[test]
fn mget_command() {
    let value1 = cmd_doc(r#"{"a":1, "b": 2, "nested": {"a": 3}, "c": null}"#);
    let value2 = cmd_doc(r#"{"a":4, "b": 5, "nested": {"a": 6}, "c": null}"#);
    let path = cmd_bytes(r#"["$", {"..": "a"}]"#);
    let raw = cmd_raw("cbor.mget", &[b"k1", b"k2", b"k3", &path]);

    let lookups: Vec<Result<Option<&Document>, &str>> =
        vec![Ok(Some(&value1)), Ok(None), Ok(Some(&value2))];
    match cbor_mget(&cmd_args(&raw), lookups) {
        Ok(reply) => assert_eq!(
            Reply::Array(vec![
                Reply::StringBuffer(cmd_bytes("[1,3]")),
                Reply::Null,
                Reply::StringBuffer(cmd_bytes("[4,6]")),
            ]),
            reply
        ),
        Err(_) => panic!("the command failed"),
    }

    let lookups: Vec<Result<Option<&Document>, &str>> =
        vec![Ok(Some(&value1)), Err("first"), Err("second")];
    assert!(matches!(
        cbor_mget(&cmd_args(&raw), lookups),
        Err(MgetError::Lookup("first"))
    ));

    let raw = cmd_raw("cbor.mget", &[b"k1", b"nopath"]);
    let lookups: Vec<Result<Option<&Document>, &str>> = vec![Err("first")];
    assert!(matches!(
        cbor_mget(&cmd_args(&raw), lookups),
        Err(MgetError::Command(CommandError::InvalidPath))
    ));

    let raw = cmd_raw("cbor.mget", &[&path]);
    let lookups: Vec<Result<Option<&Document>, &str>> = vec![];
    assert!(matches!(
        cbor_mget(&cmd_args(&raw), lookups),
        Err(MgetError::Command(CommandError::WrongArity))
    ));
}

#[test]
fn debug_command() {
    let small = cmd_doc(r#"{"a":[1,2.5,"x"]}"#);
    let large = cmd_doc(r#""a text of more than sixteen bytes""#);
    let header = std::mem::size_of::<CborOwned>();

    let raw = cmd_raw("cbor.debug", &[b"diag", b"key"]);
    assert_eq!(
        Ok(Reply::BulkString(r#"{"a": [1, 2.5, "x"]}"#.to_string())),
        cbor_debug(&cmd_args(&raw), Stored::Found(&small))
    );
    assert_eq!(Ok(Reply::Null), cbor_debug(&cmd_args(&raw), Stored::Missing));
    assert_eq!(Err(CommandError::LookupFailed), cbor_debug(&cmd_args(&raw), Stored::Failed));

    let raw = cmd_raw("cbor.debug", &[b"Memory", b"key"]);
    assert_eq!(
        Ok(Reply::Integer(header as i64)),
        cbor_debug(&cmd_args(&raw), Stored::Found(&small))
    );
    assert_eq!(
        Ok(Reply::Integer((header + large.as_slice().len()) as i64)),
        cbor_debug(&cmd_args(&raw), Stored::Found(&large))
    );
    assert_eq!(Ok(Reply::Integer(0)), cbor_debug(&cmd_args(&raw), Stored::Missing));

    let raw = cmd_raw("cbor.debug", &[b"HELP"]);
    assert_eq!(
        Ok(Reply::Array(vec![
            Reply::BulkString("DIAG <key> - display key in CBOR diagnostic notation".to_string()),
            Reply::BulkString("MEMORY <key> - reports memory usage".to_string()),
            Reply::BulkString("HELP                - this message".to_string()),
        ])),
        cbor_debug(&cmd_args(&raw), Stored::Missing)
    );

    let raw = cmd_raw("cbor.debug", &[]);
    assert_eq!(Err(CommandError::WrongArity), cbor_debug(&cmd_args(&raw), Stored::Missing));
    let raw = cmd_raw("cbor.debug", &[b"DIAG"]);
    assert_eq!(Err(CommandError::WrongArity), cbor_debug(&cmd_args(&raw), Stored::Missing));
    let raw = cmd_raw("cbor.debug", &[&[0xff, 0xfe]]);
    assert_eq!(Err(CommandError::NotUtf8), cbor_debug(&cmd_args(&raw), Stored::Missing));
    let raw = cmd_raw("cbor.debug", &[b"dump", b"key"]);
    assert_eq!(Err(CommandError::UnknownSubcommand), cbor_debug(&cmd_args(&raw), Stored::Missing));
}

#[test]
fn a_path_with_a_slice_is_taken_only_if_the_slice_is_safe() {
    let doc = cmd_doc("[1,2,3,4]");
    let get = |path: &str| {
        let raw = cmd_raw("cbor.get", &[b"key", &cmd_bytes(path)]);
        cbor_get(&cmd_args(&raw), Stored::Found(&doc))
    };

    // forward, from a start to an end not before it
    assert_eq!(Ok(Reply::StringBuffer(cmd_bytes("[1,2]"))), get(r#"["$", {":": [0, 2, 1]}]"#));
    assert_eq!(Ok(Reply::StringBuffer(cmd_bytes("[2,4]"))), get(r#"["$", {":": [1, 9, 2]}]"#));
    assert_eq!(Ok(Reply::StringBuffer(cmd_bytes("[]"))), get(r#"["$", {":": [2, 2, 1]}]"#));
    // forward, from the first element to an end counted from the back
    assert_eq!(Ok(Reply::StringBuffer(cmd_bytes("[1,2,3]"))), get(r#"["$", {":": [0, -1, 1]}]"#));
    assert_eq!(Ok(Reply::StringBuffer(cmd_bytes("[1,2,3,4]"))), get(r#"["$", {":": [0, -9, 1]}]"#));
    // backward, from a start to an end before it
    assert_eq!(Ok(Reply::StringBuffer(cmd_bytes("[3,2]"))), get(r#"["$", {":": [2, 0, -1]}]"#));
    assert_eq!(Ok(Reply::StringBuffer(cmd_bytes("[4,2]"))), get(r#"["$", {":": [9, 0, -2]}]"#));

    // a step of zero
    assert_eq!(Err(CommandError::InvalidPath), get(r#"["$", {":": [0, 2, 0]}]"#));
    // an end before its start
    assert_eq!(Err(CommandError::InvalidPath), get(r#"["$", {":": [2, 1, 1]}]"#));
    assert_eq!(Err(CommandError::InvalidPath), get(r#"["$", {":": [0, 2, -1]}]"#));
    // bounds whose order depends on the length of the array
    assert_eq!(Err(CommandError::InvalidPath), get(r#"["$", {":": [-3, -1, 1]}]"#));
    assert_eq!(Err(CommandError::InvalidPath), get(r#"["$", {":": [1, -1, 1]}]"#));
    assert_eq!(Err(CommandError::InvalidPath), get(r#"["$", {":": [-1, 0, -1]}]"#));
    // bounds beyond the magnitude that is taken
    assert_eq!(Err(CommandError::InvalidPath), get(r#"["$", {":": [0, 2147483647, 1]}]"#));
    assert_eq!(
        Ok(Reply::StringBuffer(cmd_bytes("[1,2,3,4]"))),
        get(r#"["$", {":": [0, 2147483646, 1]}]"#)
    );
    // a slice inside another segment
    assert_eq!(Err(CommandError::InvalidPath), get(r#"["$", {"..": {":": [0, 2, 0]}}]"#));
    assert_eq!(Err(CommandError::InvalidPath), get(r##"["$", [{"#": 0}, {":": [0, 2, 0]}]]"##));
    assert_eq!(
        Ok(Reply::StringBuffer(cmd_bytes("[1,1,2]"))),
        get(r##"["$", [{"#": 0}, {":": [0, 2, 1]}]]"##)
    );

    // writing goes by the same rule
    let raw = cmd_raw("cbor.del", &[b"key", &cmd_bytes(r#"["$", {":": [1, 3, 1]}]"#)]);
    let (new_value, reply, _) = cmd_written(cbor_del(&cmd_args(&raw), Stored::Found(&doc)));
    assert_eq!(Some("[1,4]".to_string()), new_value);
    assert_eq!(Reply::Integer(2), reply);
    let raw = cmd_raw("cbor.del", &[b"key", &cmd_bytes(r#"["$", {":": [1, 3, 0]}]"#)]);
    assert_eq!(CommandError::InvalidPath, cmd_failure(cbor_del(&cmd_args(&raw), Stored::Found(&doc))));
}

#[test]
fn a_document_that_cannot_be_displayed() {
    // a double of seventeen digits below a hundred-thousandth
    let mut bytes = vec![0xfbu8];
    bytes.extend_from_slice(&(-1.2345678901234567e-6f64).to_bits().to_be_bytes());
    let doc = Document::checked(&bytes).unwrap();

    let raw = cmd_raw("cbor.debug", &[b"DIAG", b"key"]);
    assert_eq!(
        Err(CommandError::NotPrintable),
        cbor_debug(&cmd_args(&raw), Stored::Found(&doc))
    );
    let raw = cmd_raw("cbor.debug", &[b"MEMORY", b"key"]);
    assert_eq!(
        Ok(Reply::Integer(std::mem::size_of::<CborOwned>() as i64)),
        cbor_debug(&cmd_args(&raw), Stored::Found(&doc))
    );
}

#[test]
fn arguments_that_the_decoder_would_fault_on_are_refused() {
    let doc = cmd_doc("[1]");
    let mut text = vec![0x7bu8];
    text.extend_from_slice(&[0xff; 8]);
    text.push(0xff);
    let map = [0xbbu8, 0x80, 0, 0, 0, 0, 0, 0, 0];

    let raw = cmd_raw("cbor.get", &[b"key", &text]);
    assert_eq!(Err(CommandError::InvalidPath), cbor_get(&cmd_args(&raw), Stored::Found(&doc)));
    let raw = cmd_raw("cbor.get", &[b"key", &map]);
    assert_eq!(Err(CommandError::InvalidPath), cbor_get(&cmd_args(&raw), Stored::Found(&doc)));

    let root = cmd_bytes(r#""$""#);
    let raw = cmd_raw("cbor.arrappend", &[b"key", &root, &text]);
    assert_eq!(
        CommandError::InvalidCbor,
        cmd_failure(cbor_arr_append(&cmd_args(&raw), Stored::Found(&doc)))
    );
    let raw = cmd_raw("cbor.set", &[b"key", &root, &map]);
    assert_eq!(CommandError::InvalidCbor, cmd_failure(cbor_set(&cmd_args(&raw), Stored::Missing)));

    // the three spellings of the root path
    for spelling in [&[0x61u8, 0x24][..], &[0x81, 0x61, 0x24][..]] {
        let raw = cmd_raw("cbor.set", &[b"key", spelling, &cmd_bytes("4")]);
        let (new_value, reply, _) = cmd_written(cbor_set(&cmd_args(&raw), Stored::Missing));
        assert_eq!(Some("4".to_string()), new_value);
        assert_eq!(Reply::Okay, reply);
    }
}
