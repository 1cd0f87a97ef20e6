//! The GitHub-gist delivery variant: the file's content is sent as an
//! authenticated update of a configured gist. The variant requires both a
//! bearer token and a gist identifier; missing either is a per-item
//! configuration error, reported before any network work is planned. The
//! request body is built here as JSON text, with the content escaped by the
//! JSON string rules.

use crate::appconfig::Backup;
use crate::paths::{
    file_name_spec, find_file_name_start, find_stem_end, lemma_file_name_start_bounds, stem_len,
};
use crate::uploaders::{get_file_name, BackupError, UploadPlan};
use vstd::prelude::*;
use vstd::string::*;

verus! {

/// The failure text reported when the bearer token is missing.
pub open spec fn missing_token_message(path: Seq<char>) -> Seq<char> {
    "Github OAuth token required for Github backup; did not backup "@ + file_name_spec(path)
}

/// The failure text reported when the gist identifier is missing.
pub open spec fn missing_gist_id_message(path: Seq<char>) -> Seq<char> {
    "Gist id required for Github backup; did not backup "@ + file_name_spec(path)
}

/// Plan the gist delivery of the file at `path` under `backup`: an update
/// of the configured gist under the configured token, or a validation error
/// when either is missing. The token is checked first.
pub fn plan_upload(path: &String, backup: &Backup) -> (r: Result<UploadPlan, BackupError>)
    ensures
        backup.credentials is None ==> (r matches Err(BackupError::Validation(m)) && m@
            == missing_token_message(path@)),
        backup.credentials is Some && backup.destination is None ==> (r matches Err(
            BackupError::Validation(m),
        ) && m@ == missing_gist_id_message(path@)),
        backup.credentials is Some && backup.destination is Some ==> (r matches Ok(
            UploadPlan::PatchGist { token, gist_id },
        ) && token@ == backup.credentials->0@ && gist_id@ == backup.destination->0@),
{
    let token = match backup.get_creds() {
        Some(t) => t,
        None => {
            let m = String::from_str(
                "Github OAuth token required for Github backup; did not backup ",
            ).concat(get_file_name(path).as_str());
            return Err(BackupError::Validation(m));
        },
    };
    let gist_id = match backup.get_destination() {
        Some(d) => d,
        None => {
            let m = String::from_str(
                "Gist id required for Github backup; did not backup ",
            ).concat(get_file_name(path).as_str());
            return Err(BackupError::Validation(m));
        },
    };
    Ok(UploadPlan::PatchGist { token, gist_id })
}

/// The gist resource URL under a host.
pub fn gist_url(host: &String, gist_id: &String) -> (r: String)
    ensures
        r@ == host@ + "/gists/"@ + gist_id@,
{
    let mut r = String::from_str("");
    r.append(host.as_str());
    r.append("/gists/");
    r.append(gist_id.as_str());
    proof {
        reveal_strlit("");
        assert(r@ =~= host@ + "/gists/"@ + gist_id@);
    }
    r
}

/// The lower-case hexadecimal digit for `n`.
pub open spec fn hex_digit(n: int) -> char
    recommends
        0 <= n < 16,
{
    if n == 0 {
        '0'
    } else if n == 1 {
        '1'
    } else if n == 2 {
        '2'
    } else if n == 3 {
        '3'
    } else if n == 4 {
        '4'
    } else if n == 5 {
        '5'
    } else if n == 6 {
        '6'
    } else if n == 7 {
        '7'
    } else if n == 8 {
        '8'
    } else if n == 9 {
        '9'
    } else if n == 10 {
        'a'
    } else if n == 11 {
        'b'
    } else if n == 12 {
        'c'
    } else if n == 13 {
        'd'
    } else if n == 14 {
        'e'
    } else {
        'f'
    }
}

/// How one character is written inside a JSON string: the quote and the
/// backslash are escaped, the named control characters take their short
/// escapes, every other control character its `\u00XX` escape, and every
/// remaining character stands as itself.
pub open spec fn json_escape_char(c: char) -> Seq<char> {
    if c == '"' {
        seq!['\\', '"']
    } else if c == '\\' {
        seq!['\\', '\\']
    } else if c == '\u{8}' {
        seq!['\\', 'b']
    } else if c == '\u{9}' {
        seq!['\\', 't']
    } else if c == '\u{a}' {
        seq!['\\', 'n']
    } else if c == '\u{c}' {
        seq!['\\', 'f']
    } else if c == '\u{d}' {
        seq!['\\', 'r']
    } else if (c as u32) < 32 {
        seq!['\\', 'u', '0', '0', hex_digit((c as u32) as int / 16), hex_digit(
            (c as u32) as int % 16,
        )]
    } else {
        seq![c]
    }
}

/// A text written by the JSON string rules, character by character.
pub open spec fn json_escaped(s: Seq<char>) -> Seq<char>
    decreases s.len(),
{
    if s.len() == 0 {
        Seq::empty()
    } else {
        json_escaped(s.drop_last()) + json_escape_char(s.last())
    }
}

/// A JSON string literal: the escaped text between quotes.
pub open spec fn json_string(s: Seq<char>) -> Seq<char> {
    seq!['"'] + json_escaped(s) + seq!['"']
}

/// The name under which a file appears in the gist: the stem of its file
/// name under the `txt` extension.
pub open spec fn gist_entry_name(path: Seq<char>) -> Seq<char> {
    let name = file_name_spec(path);
    name.take(stem_len(name)) + ".txt"@
}

/// The JSON body of the gist update request: a fixed description, and one
/// file entry mapping the gist entry name to the content.
pub open spec fn gist_body_spec(path: Seq<char>, content: Seq<char>) -> Seq<char> {
    "{\"description\":\"backup for kvwu\",\"files\":{"@ + json_string(gist_entry_name(path))
        + ":{\"content\":"@ + json_string(content) + ",\"filename\":"@ + json_string(
        gist_entry_name(path),
    ) + "}}}"@
}

/// Append one hexadecimal digit.
fn append_hex_digit(out: &mut String, d: u32)
    requires
        d < 16,
    ensures
        final(out)@ == old(out)@ + seq![hex_digit(d as int)],
{
    if d == 0 {
        out.append("0");
        proof {
            reveal_strlit("0");
            assert("0"@ =~= seq![hex_digit(0)]);
        }
    } else if d == 1 {
        out.append("1");
        proof {
            reveal_strlit("1");
            assert("1"@ =~= seq![hex_digit(1)]);
        }
    } else if d == 2 {
        out.append("2");
        proof {
            reveal_strlit("2");
            assert("2"@ =~= seq![hex_digit(2)]);
        }
    } else if d == 3 {
        out.append("3");
        proof {
            reveal_strlit("3");
            assert("3"@ =~= seq![hex_digit(3)]);
        }
    } else if d == 4 {
        out.append("4");
        proof {
            reveal_strlit("4");
            assert("4"@ =~= seq![hex_digit(4)]);
        }
    } else if d == 5 {
        out.append("5");
        proof {
            reveal_strlit("5");
            assert("5"@ =~= seq![hex_digit(5)]);
        }
    } else if d == 6 {
        out.append("6");
        proof {
            reveal_strlit("6");
            assert("6"@ =~= seq![hex_digit(6)]);
        }
    } else if d == 7 {
        out.append("7");
        proof {
            reveal_strlit("7");
            assert("7"@ =~= seq![hex_digit(7)]);
        }
    } else if d == 8 {
        out.append("8");
        proof {
            reveal_strlit("8");
            assert("8"@ =~= seq![hex_digit(8)]);
        }
    } else if d == 9 {
        out.append("9");
        proof {
            reveal_strlit("9");
            assert("9"@ =~= seq![hex_digit(9)]);
        }
    } else if d == 10 {
        out.append("a");
        proof {
            reveal_strlit("a");
            assert("a"@ =~= seq![hex_digit(10)]);
        }
    } else if d == 11 {
        out.append("b");
        proof {
            reveal_strlit("b");
            assert("b"@ =~= seq![hex_digit(11)]);
        }
    } else if d == 12 {
        out.append("c");
        proof {
            reveal_strlit("c");
            assert("c"@ =~= seq![hex_digit(12)]);
        }
    } else if d == 13 {
        out.append("d");
        proof {
            reveal_strlit("d");
            assert("d"@ =~= seq![hex_digit(13)]);
        }
    } else if d == 14 {
        out.append("e");
        proof {
            reveal_strlit("e");
            assert("e"@ =~= seq![hex_digit(14)]);
        }
    } else {
        out.append("f");
        proof {
            reveal_strlit("f");
            assert("f"@ =~= seq![hex_digit(15)]);
        }
    }
}

/// Append `s` written by the JSON string rules.
fn append_json_escaped(out: &mut String, s: &str)
    ensures
        final(out)@ == old(out)@ + json_escaped(s@),
{
    let n = s.unicode_len();
    proof {
        assert(s@.take(0) =~= Seq::<char>::empty());
        assert(old(out)@ + json_escaped(s@.take(0)) =~= old(out)@);
    }
    let mut i: usize = 0;
    while i < n
        invariant
            i <= n,
            n == s@.len(),
            out@ == old(out)@ + json_escaped(s@.take(i as int)),
        decreases n - i,
    {
        let c = s.get_char(i);
        if c == '"' {
            out.append("\\\"");
            proof {
                reveal_strlit("\\\"");
                assert("\\\""@ =~= json_escape_char('"'));
            }
        } else if c == '\\' {
            out.append("\\\\");
            proof {
                reveal_strlit("\\\\");
                assert("\\\\"@ =~= json_escape_char('\\'));
            }
        } else if c == '\u{8}' {
            out.append("\\b");
            proof {
                reveal_strlit("\\b");
                assert("\\b"@ =~= json_escape_char('\u{8}'));
            }
        } else if c == '\u{9}' {
            out.append("\\t");
            proof {
                reveal_strlit("\\t");
                assert("\\t"@ =~= json_escape_char('\u{9}'));
            }
        } else if c == '\u{a}' {
            out.append("\\n");
            proof {
                reveal_strlit("\\n");
                assert("\\n"@ =~= json_escape_char('\u{a}'));
            }
        } else if c == '\u{c}' {
            out.append("\\f");
            proof {
                reveal_strlit("\\f");
                assert("\\f"@ =~= json_escape_char('\u{c}'));
            }
        } else if c == '\u{d}' {
            out.append("\\r");
            proof {
                reveal_strlit("\\r");
                assert("\\r"@ =~= json_escape_char('\u{d}'));
            }
        } else if (c as u32) < 32 {
            out.append("\\u00");
            proof {
                reveal_strlit("\\u00");
            }
            let code = c as u32;
            append_hex_digit(out, code / 16);
            append_hex_digit(out, code % 16);
            proof {
                assert("\\u00"@ + seq![hex_digit(code as int / 16)] + seq![
                    hex_digit(code as int % 16),
                ] =~= json_escape_char(c));
            }
        } else {
            out.append(s.substring_char(i, i + 1));
            proof {
                assert(s@.subrange(i as int, i + 1) =~= seq![s@[i as int]]);
                assert(seq![s@[i as int]] =~= json_escape_char(c));
            }
        }
        proof {
            assert(s@.take(i + 1).drop_last() =~= s@.take(i as int));
            assert(s@.take(i + 1).last() == s@[i as int]);
            assert(out@ =~= old(out)@ + json_escaped(s@.take(i + 1)));
        }
        i = i + 1;
    }
    proof {
        assert(s@.take(n as int) =~= s@);
    }
}

/// Build the JSON body of the gist update request for the file at `path`
/// with the given content.
pub fn gist_request_body(path: &String, content: &String) -> (r: String)
    ensures
        r@ == gist_body_spec(path@, content@),
{
    proof {
        lemma_file_name_start_bounds(path@);
    }
    let s = path.as_str();
    let i = find_file_name_start(s);
    let cut = find_stem_end(s, i);
    let stem = s.substring_char(i, cut);
    let entry = String::from_str(stem).concat(".txt");
    proof {
        assert(entry@ =~= gist_entry_name(path@));
    }
    let mut r = String::from_str("{\"description\":\"backup for kvwu\",\"files\":{");
    r.append("\"");
    append_json_escaped(&mut r, entry.as_str());
    r.append("\"");
    r.append(":{\"content\":");
    r.append("\"");
    append_json_escaped(&mut r, content.as_str());
    r.append("\"");
    r.append(",\"filename\":");
    r.append("\"");
    append_json_escaped(&mut r, entry.as_str());
    r.append("\"");
    r.append("}}}");
    proof {
        reveal_strlit("\"");
        assert("\""@ =~= seq!['"']);
        assert(r@ =~= gist_body_spec(path@, content@));
    }
    r
}

/// Classify the gist update response: success exactly for a success-class
/// (2xx) status; otherwise a transport failure carrying the response body.
pub fn classify_gist_response(status: u16, body: &String) -> (r: Result<(), BackupError>)
    ensures
        200 <= status < 300 <==> r is Ok,
        r matches Err(e) ==> (e matches BackupError::Transport(m) && m@ == body@),
{
    if 200 <= status && status < 300 {
        Ok(())
    } else {
        Err(BackupError::Transport(body.clone()))
    }
}

} // verus!
