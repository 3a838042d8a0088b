# apw

A command line client and daemon for Apple's password manager: it looks up accounts, passwords and
one-time codes through a helper process, a native host or a browser, and keeps a session of its own
with the helper.

The logic is a library verified with [Verus](https://github.com/verus-lang/verus). What touches
files, sockets, processes and the terminal is ordinary Rust around it.

## Layout

| Path | What it holds |
| --- | --- |
| `src/text.rs`, `src/json.rs`, `src/bignum.rs`, `src/codec.rs`, `src/clock.rs`, `src/crypto.rs` | text, JSON values, large numbers, base64 and hexadecimal, time, digests and the cipher |
| `src/types.rs`, `src/error.rs` | status codes, messages and configuration records |
| `src/secrets.rs`, `src/utils.rs` | the keychain, and reading and writing the configuration |
| `src/srp.rs`, `src/client.rs`, `src/manager.rs` | the key exchange, the messages to the helper, and a client's conversation |
| `src/host.rs`, `src/native_app.rs`, `src/preflight.rs` | the native host, the APW app, and what is found before a launch |
| `src/bridge.rs`, `src/daemon.rs` | the connection to a browser or the native host, and the daemon |
| `src/cli.rs` | the commands |
| `app/` | the program |
| `tests/` | tests of the library |

## What is trusted

Functions marked `#[verifier::external_body]` call other crates. Each says in its comment which
function it calls and what is taken for granted of it. Names without a definition
(`uninterp spec fn`) stand for results of such calls that depend on the arguments alone.
