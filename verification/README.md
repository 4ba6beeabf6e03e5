# gateway_pages

The pages of an LLM gateway: what they show, what their forms mean, and what is
done when one is submitted. The library in `src/` is verified with Verus. It does
no input or output; the handlers in `app/` read requests, call the store and the
providers, and ask the library what to do and what to answer.

## What is proved

- Every page and every fragment is exactly the text that a spec function gives for
  its data. Text of users is escaped wherever it stands.
- Every form is read exactly as stated: which fields are trimmed, what is refused
  and with which message, what is stored.
- Requests that alternate between decisions and outside work are state machines:
  sending a message (`chat::flow`), connecting an account (`oauth`), acting as
  another user (`users`) and saving a collection (`saving`). Their steps are stated
  event by event.
- What holds of the library as a whole is stated in public proof functions, such as
  that a reader of a shared conversation sees no controls, that an account is
  connected only by the user who began it, that lists and schedules read back as
  they were written, and that secrets reach no page.

## Layout

- `html`, `text`, `num`, `lines`, `order`, `json`, `query`, `forms`, `multipart`,
  `moment`, `notice`, `updates`: markup, texts, numbers and the other small parts.
- `layout`, `fields`: the frame of a page, and parts that several pages share.
- `chat`: conversations, their titles, capabilities, exports and messages.
- `admin`, `backends`, `pools`, `groups`, `users`, `connectors`, `skills`, `rag`,
  `saving`: the pages of administrators.
- `integrations`, `oauth`, `scheduled`, `tokens`, `tools`, `tool_toggles`: the pages
  of every user.

Markup is escaped by plait, JSON written and read by serde_json, queries written and
form bodies read by serde_urlencoded, times written by jiff, and boundaries of
multipart forms read by multer. The functions that call them are marked
`external_body`; their contracts say what is relied on.
