# script

Verified document-object logic of a browser engine's script component, written
in Verus.

- `src/element.rs`: an element's local name, prefix and content attributes,
  with attribute reflection (string and boolean attributes).
- `src/dialog.rs`: `<dialog>`: `open`, `returnValue` and the steps of `close()`.
- `src/meta.rs`: `<meta>`: processing of the `name` attribute (`viewport`,
  `referrer`), the viewport stylesheet and its CSSOM object.
- `src/radio.rs`: `RadioNodeList` and its `value` attribute.
- `src/transition.rs`, `src/event.rs`: `TransitionEvent` construction.
- `src/task_source.rs`: the messages of the DOM manipulation task source.
- `src/text.rs`: ASCII lower-casing and trimming of HTML space characters.
- `src/caption.rs`: the table `<caption>` element.

`app/` holds what talks to the rest of the engine: the channel to the script
thread, parser atoms and the float-valued `elapsedTime`. The work that needs
the style system or the document tree (parsing the viewport rule, building,
adding and removing stylesheets, making the CSSOM object, updating the
referrer, checking a radio button, the parent element's hooks) is done by
closures that the caller of `app/` supplies; `app/` hands them what the
library decides.
