# Gremlin

A desktop companion for Linux. A daemon answers questions with a local language model, which may
run tools: it reads and writes files, asks git and cargo, looks at the screen, the clipboard and
the windows, and hands larger tasks to a coding service. A sprite stands for it on the screen.

The library under `src/` is written in Verus. It decides and computes, and every function states
in its contract what it does. It performs no input or output. Where something is needed from the
world, a function returns a request and is called again with the reply.

- `text`, `json`, `picture`, `process`, `error`: plain data, and the outside functions that read
  and write it. The functions of `serde_json`, `image`, `base64` and the standard library on which
  the proofs rely are named there, with what is taken for granted of each.
- `effect`, `tools`: what a tool asks for, what it is given, and what it says.
- `ollama`, `conversation`, `saved`, `toolcall`, `daemon`, `protocol`: a question from the socket
  to the answer, and the conversation that is kept on disk.
- `context`, `hermes`, `vision`, `desktop`: what is found out about the project and the screen.
- `sprite`, `viewer`, `window`, `dialog`: the animations, and the window that shows them.
- `config`, `service`, `report`: settings, the systemd unit, and what the commands print.

`app/` holds the two programs: the daemon with its command line, and the sprite viewer, which runs
where the program is started under the name `sprite-viewer`. Functions whose names begin with
`law_` state what holds of the library as a whole.
