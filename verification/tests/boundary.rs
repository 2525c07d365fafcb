//! Strings across the host boundary.

use mcp_bind::ffi::{
    from_utf16_ptr, to_utf16, Callback, Host, McpHost, McpString, WideScan, SCAN_LIMIT,
};
use mcp_bind::utf16::{decode_units, encode_units};

const TEXTS: [&str; 7] = [
    "",
    "127.0.0.1",
    "\u{7F}\u{80}\u{7FF}\u{800}\u{D7FF}\u{E000}\u{FFFD}\u{FFFF}",
    "\u{10000}\u{103FF}\u{10400}\u{10FFFF}",
    "a\u{1F600}b\u{1F680}",
    "UE4SS \u{65E5}\u{672C}\u{8A9E}",
    "a\0b",
];

#[test]
fn encoding_is_utf16() {
    for text in TEXTS {
        let expected: Vec<u16> = text.encode_utf16().collect();
        assert_eq!(encode_units(text), expected, "{text:?}");
    }
    assert_eq!(encode_units("\u{1F600}"), vec![0xD83D, 0xDE00]);
}

#[test]
fn decoding_is_lossy_utf16() {
    // Every run of four out of a plain unit, both kinds of surrogate and their bounds.
    let units: [u16; 7] = [0x41, 0xD7FF, 0xD800, 0xDBFF, 0xDC00, 0xDFFF, 0xE000];
    for a in units {
        for b in units {
            for c in units {
                for d in units {
                    let run = [a, b, c, d];
                    assert_eq!(decode_units(&run), String::from_utf16_lossy(&run), "{run:x?}");
                }
            }
        }
    }
    assert_eq!(decode_units(&[0xD800]), "\u{FFFD}");
    assert_eq!(decode_units(&[0xDC00, 0xD800]), "\u{FFFD}\u{FFFD}");
}

#[test]
fn decoding_undoes_encoding() {
    for text in TEXTS {
        assert_eq!(decode_units(&encode_units(text)), text);
    }
}

#[test]
fn handed_over_strings_end_in_a_terminator() {
    for text in TEXTS {
        let wide = to_utf16(text);
        assert_eq!(wide.last(), Some(&0));
        assert_eq!(wide[..wide.len() - 1], encode_units(text)[..]);
    }
    assert_eq!(to_utf16(""), vec![0]);
    assert_eq!(to_utf16("Lua"), vec![0x4C, 0x75, 0x61, 0]);
}

#[test]
fn handed_over_strings_read_back_up_to_nul() {
    for text in TEXTS {
        let expected = text.split('\0').next().unwrap();
        assert_eq!(from_utf16_ptr(Some(&to_utf16(text))), expected);
    }
}

#[test]
fn null_pointer_reads_as_empty() {
    assert_eq!(from_utf16_ptr(None), "");
    assert_eq!(from_utf16_ptr(Some(&[0])), "");
}

#[test]
fn missing_terminator_stops_at_the_limit() {
    let memory = vec![0x61u16; SCAN_LIMIT + 10];
    assert_eq!(from_utf16_ptr(Some(&memory)).len(), 4194305);

    let mut memory = vec![0x61u16; SCAN_LIMIT];
    memory[4194304] = 0;
    assert_eq!(from_utf16_ptr(Some(&memory)).len(), 4194304);
}

#[test]
fn scan_stops_before_the_terminator() {
    let memory = [0x61u16, 0x62, 0, 0x63];
    let mut scan = WideScan::new();
    while scan.is_open() {
        scan.feed(memory[scan.len()]);
    }
    assert_eq!(scan.len(), 2);
}

#[test]
fn empty_string_has_no_buffer() {
    let s = McpString::empty();
    assert!(s.data.is_none());
    assert_eq!(s.len, 0);
    assert_eq!(s.to_string_lossy(), "");
}

#[test]
fn host_strings_are_read_up_to_their_length() {
    let s = McpString {
        data: Some(vec![0x61, 0x62, 0x63]),
        len: 2,
    };
    assert_eq!(s.to_string_lossy(), "ab");
    let s = McpString {
        data: Some(vec![0x61]),
        len: 0,
    };
    assert_eq!(s.to_string_lossy(), "");
    let s = McpString { data: None, len: 5 };
    assert_eq!(s.to_string_lossy(), "");
    // A terminator is not special here: the length says where the string ends.
    let s = McpString {
        data: Some(vec![0x61, 0, 0xD800]),
        len: 3,
    };
    assert_eq!(s.to_string_lossy(), "a\0\u{FFFD}");
}

#[test]
fn filled_in_texts_arrive_whole() {
    for text in TEXTS {
        let mut units = encode_units(text);
        let len = units.len();
        units.extend([0xDC00, 0x41]);
        let s = McpString {
            data: Some(units),
            len,
        };
        assert_eq!(s.to_string_lossy(), text);
    }
}

#[test]
fn replies_are_released_whichever_way_they_went() {
    let host = Host(McpHost { ctx: 9 });
    for ok in [true, false] {
        let out = McpString {
            data: Some(vec![0x6F, 0x6B]),
            len: 2,
        };
        let reply = host.reply(ok, out);
        assert_eq!(reply.free.ctx, 9);
        match reply.free.callback {
            Callback::FreeString { s } => {
                assert_eq!(s.data, Some(vec![0x6F, 0x6B]));
                assert_eq!(s.len, 2);
            }
            _ => panic!("not a release"),
        }
        match reply.result {
            Ok(text) => assert!(ok && text == "ok"),
            Err(text) => assert!(!ok && text == "ok"),
        }
    }
    let (text, free) = host.take(McpString::empty());
    assert_eq!(text, "");
    assert!(matches!(free.callback, Callback::FreeString { .. }));
}

#[test]
fn calls_carry_the_context_and_wide_arguments() {
    let host = Host(McpHost { ctx: 5 });
    match host.log("[MCP] already running") {
        call => {
            assert_eq!(call.ctx, 5);
            match call.callback {
                Callback::Log { msg } => assert_eq!(msg, to_utf16("[MCP] already running")),
                _ => panic!("wrong callback"),
            }
        }
    }
    match host.on_tool_call("lua_eval", "return 1", true).callback {
        Callback::OnToolCall {
            tool,
            args_json,
            ok,
        } => {
            assert_eq!(tool, to_utf16("lua_eval"));
            assert_eq!(args_json, to_utf16("return 1"));
            assert!(ok);
        }
        _ => panic!("wrong callback"),
    }
    match host.log_tail(3, Some("Lua")).callback {
        Callback::LogTail { lines, filter } => {
            assert_eq!(lines, 3);
            assert_eq!(filter, Some(to_utf16("Lua")));
        }
        _ => panic!("wrong callback"),
    }
    assert!(matches!(host.game_status().callback, Callback::GameStatus));
    assert!(matches!(host.reload_mods().callback, Callback::ReloadMods));
}
