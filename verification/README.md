# nu_discord_bot

A Discord bot that runs Nushell pipelines in a WASM sandbox and answers with
the output rendered as a terminal image. The deciding parts live in `src/`
and are verified with Verus; `app/` holds the process around them (HTTP
server, Discord client, WASM runtime, glyph drawing).

- `src/signature.rs` – which signed requests pass (Ed25519 over timestamp
  and body, hex-encoded signature header).
- `src/http.rs` – the HTTP endpoint's immediate answers.
- `src/interaction.rs` – interactions, routing and command dispatch.
- `src/handler.rs` – command definitions, reports, the delete command.
- `src/nu_command.rs` – the `nu` command as a state machine: options,
  download, execution, reply.
- `src/executor.rs` – the guest's input and pipeline, and its results.
- `src/render.rs` – terminal layout, colours and image geometry.
- `src/response.rs`, `src/text.rs` – responses, embeds, and text helpers.

`app/` reads its settings from the environment: `DISCORD_TOKEN`,
`DISCORD_APPLICATION_ID`, `DISCORD_SUPPORT_USER_ID`, `DISCORD_PUBLIC_KEY`
(hex), `COLOR_RED`, `COLOR_YELLOW` (hex), `NU_WASM_COMPONENT` (path to the
guest component), `TERMINAL_FONT` (path to the font) and optionally
`BIND_ADDR`.
