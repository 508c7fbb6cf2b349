# micam_rs

Bridges Xiaomi cameras to RTSP. Video comes from a Miloco service over its
WebSocket, or from the camera library; from the first keyframe on it is piped
into FFmpeg, which publishes it over TCP.

The decisions are a library verified with Verus; the programs around it do the
network, process and file work.

## The library

| Module | Holds |
| --- | --- |
| `bridge` | configuration, addresses, and what is done with each thing that arrives |
| `ffmpeg` | the FFmpeg command line |
| `nal` | keyframes in Annex B streams |
| `native_miot`, `native_start` | the native source: its configuration and frames; starting and releasing it |
| `oauth`, `lifetime` | tokens: when one is used or refreshed, requests and replies, expiry |
| `token_flow` | resolving a token: what is sent, stored and returned |
| `oauth_server`, `exchange_flow`, `pages` | the helper for the first login |
| `remote_login` | the way to a remote stream |
| `miloco` | a client of the Miloco service |
| `cli`, `probe` | the settings of the programs |
| `text`, `numbers`, `digest` | texts, integers, SHA-1 |
| `json`, `headers`, `link`, `paths` | documents, header fields, URLs and paths of other crates |

Functions named `law_…` state what holds across functions: that nothing is
forwarded before a keyframe, that a failed start of the native source leaves
nothing behind, that a refreshed token is stored before it is returned.

What other crates compute (`serde_json`, `url`, `http`, `sha1`, `shell_words`)
is called through small functions whose contracts are believed, not proved.
They stand beside the names that their contracts speak of.

## The programs

`app/` holds one executable; the name that it is called by selects the bridge
(the default), `miloco_oauth_redirect`, `miloco_probe` or `miot_native_probe`.
All of them are configured by environment variables.
