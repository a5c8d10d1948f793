# Guardian agent

A remote-assistance agent: the operator of a machine logs in, a viewer asks for
control, the operator grants or refuses it, and the screen is streamed while the
viewer's input is carried out.

`src/` is the library that decides and computes. Verus verifies it, except for
the calls that leave it: the bodies of six small functions of `codificacion` and
`json`, which call the standard library and `serde_json`, and one method of
`serde_json` that is called directly. Their contracts are believed, not proved,
and a comment at each says what is claimed.

| module | what it holds |
| --- | --- |
| `estado` | the state shared by window and agent, and every change to it |
| `tunel` | the control tunnel: login data, reconnection, signals of the server |
| `sesion` | a session: permission, choice of the screen, signalling, its end |
| `captura` | hot switching, encoder options, restarts of the encoder |
| `rtp` | splicing of successive RTP streams into one |
| `entrada` | what the viewer's commands do to keyboard, mouse and clipboard |
| `alertas`, `descarga` | the alert stream and the downloads it announces |
| `pantallas`, `video` | the screens that the device listings name |
| `texto` | text operations over character sequences |
| `codificacion`, `json` | the trusted calls into the standard library and `serde_json` |

The public proof functions whose names begin with `ley_` state what holds of the
library as a whole.

`app/` is the program around it: sockets, processes, devices and the window, and
what takes floating point, the scaling of the pointer and the place of the check
mark.
