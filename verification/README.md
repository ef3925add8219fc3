# borovylo

Gamepad control of a granular synthesizer, with a few small programs around
it, written as a Verus library whose behaviour is stated in contracts and
proved.

- `src/borovylo`: the data service (layouts, buttons, parameters, what a
  button press does, the notices published to subscribers), the gamepad's
  decisions, the MIDI driver's repetition of messages, and the generation of
  the Csound tables and the service's initializer from the settings.
- `src/borovylo2`: the second generation: layouts of the gamepad, the event
  filter, the layout window's updates.
- `src/oko`, `src/oko2`: a picture library (which files are pictures, the
  messages to the web client, likes).
- `src/screenwriter`: a screenwriter's notebook (events, days, ids, backups).
- `src/text.rs`: decimal text of numbers and the few string helpers the rest
  shares.
- `tests/`: tests of the library on concrete values.
- `app/`: the programs: device loops, files, network, and the GraphQL schema
  around the library.
