# gallifreyan

Converts Latin text into Circular Gallifreyan: a sentence becomes a circle of
words, each word a circle of letters, each letter a circle with its dots and lines.

The library (`src/`) is verified with Verus. It holds the rules of the writing
system and the decisions of the converter:

- `plugins::text_converter::letter`: vocals, consonants and digraphs, read from
  text ignoring ASCII case; splitting a word into letters, joining the pairs that
  form digraphs (`combinator`).
- `plugins::text_converter::sentence`: sanitizing a sentence down to letters and
  single spaces, and what setting a new sentence does to the sentence entity.
- `plugins::text_converter::children`: how the children of a sentence, word or
  letter follow a new list of words, letters, dots or line slots.
- `plugins::text_converter::components::letter`: the drawing model of letters and
  the vocal nesting settings; `menu_bar::settings::vocal_nesting` reads nesting
  rules such as `bo,sha`.
- `image_types`: placements and decorations read from a letter's text, and which
  letters cut the word circle.
- `plugins::svg::style`: the `<style>` element of an exported drawing.
- `plugins::selection`, `plugins::file`, `plugins::constraints::angle`,
  `plugins::color_theme`: selection changes, file actions, the neighbours that
  bound a word's angle, and the colors of the dark and light theme.

Laws that relate several functions are stated as public proof functions next to
the functions they speak of (`lemma_*`).

The program (`app/`) runs the converter on a bevy world, lays the circles out and
writes the drawing as an SVG file:

    gallifreyan "my sentence" --out sentence.svg --nesting bo,sha

The tests are in `tests/`.
