//! The bundled X11 colour list: one definition per line, three
//! decimal components followed by the colour's name. The list is
//! stated once as specification text and once as the value the
//! executable accessor returns; the two literals are identical.

use vstd::prelude::*;

verus! {

/// The colour definitions, as lines of text.
pub open spec fn spec_colour_list() -> Seq<char> {
    "255 250 250\t\tsnow
248 248 255\t\tghost white
248 248 255\t\tGhostWhite
245 245 245\t\twhite smoke
245 245 245\t\tWhiteSmoke
220 220 220\t\tgainsboro
255 250 240\t\tfloral white
255 250 240\t\tFloralWhite
253 245 230\t\told lace
253 245 230\t\tOldLace
250 240 230\t\tlinen
250 235 215\t\tantique white
250 235 215\t\tAntiqueWhite
255 239 213\t\tpapaya whip
255 239 213\t\tPapayaWhip
255 235 205\t\tblanched almond
255 235 205\t\tBlanchedAlmond
255 228 196\t\tbisque
255 218 185\t\tpeach puff
255 218 185\t\tPeachPuff
255 222 173\t\tnavajo white
255 222 173\t\tNavajoWhite
255 228 181\t\tmoccasin
255 248 220\t\tcornsilk
255 255 240\t\tivory
255 250 205\t\tlemon chiffon
255 250 205\t\tLemonChiffon
255 245 238\t\tseashell
240 255 240\t\thoneydew
245 255 250\t\tmint cream
245 255 250\t\tMintCream
240 255 255\t\tazure
240 248 255\t\talice blue
240 248 255\t\tAliceBlue
230 230 250\t\tlavender
255 240 245\t\tlavender blush
255 240 245\t\tLavenderBlush
255 228 225\t\tmisty rose
255 228 225\t\tMistyRose
255 255 255\t\twhite
  0   0   0\t\tblack
 47  79  79\t\tdark slate gray
 47  79  79\t\tDarkSlateGray
 47  79  79\t\tdark slate grey
 47  79  79\t\tDarkSlateGrey
105 105 105\t\tdim gray
105 105 105\t\tDimGray
105 105 105\t\tdim grey
105 105 105\t\tDimGrey
112 128 144\t\tslate gray
112 128 144\t\tSlateGray
112 128 144\t\tslate grey
112 128 144\t\tSlateGrey
119 136 153\t\tlight slate gray
119 136 153\t\tLightSlateGray
119 136 153\t\tlight slate grey
119 136 153\t\tLightSlateGrey
190 190 190\t\tgray
190 190 190\t\tgrey
211 211 211\t\tlight grey
211 211 211\t\tLightGrey
211 211 211\t\tlight gray
211 211 211\t\tLightGray
 25  25 112\t\tmidnight blue
 25  25 112\t\tMidnightBlue
  0   0 128\t\tnavy
  0   0 128\t\tnavy blue
  0   0 128\t\tNavyBlue
100 149 237\t\tcornflower blue
100 149 237\t\tCornflowerBlue
 72  61 139\t\tdark slate blue
 72  61 139\t\tDarkSlateBlue
106  90 205\t\tslate blue
106  90 205\t\tSlateBlue
123 104 238\t\tmedium slate blue
123 104 238\t\tMediumSlateBlue
132 112 255\t\tlight slate blue
132 112 255\t\tLightSlateBlue
  0   0 205\t\tmedium blue
  0   0 205\t\tMediumBlue
 65 105 225\t\troyal blue
 65 105 225\t\tRoyalBlue
  0   0 255\t\tblue
 30 144 255\t\tdodger blue
 30 144 255\t\tDodgerBlue
  0 191 255\t\tdeep sky blue
  0 191 255\t\tDeepSkyBlue
135 206 235\t\tsky blue
135 206 235\t\tSkyBlue
135 206 250\t\tlight sky blue
135 206 250\t\tLightSkyBlue
 70 130 180\t\tsteel blue
 70 130 180\t\tSteelBlue
176 196 222\t\tlight steel blue
176 196 222\t\tLightSteelBlue
173 216 230\t\tlight blue
173 216 230\t\tLightBlue
176 224 230\t\tpowder blue
176 224 230\t\tPowderBlue
175 238 238\t\tpale turquoise
175 238 238\t\tPaleTurquoise
  0 206 209\t\tdark turquoise
  0 206 209\t\tDarkTurquoise
 72 209 204\t\tmedium turquoise
 72 209 204\t\tMediumTurquoise
 64 224 208\t\tturquoise
  0 255 255\t\tcyan
224 255 255\t\tlight cyan
224 255 255\t\tLightCyan
 95 158 160\t\tcadet blue
 95 158 160\t\tCadetBlue
102 205 170\t\tmedium aquamarine
102 205 170\t\tMediumAquamarine
127 255 212\t\taquamarine
  0 100   0\t\tdark green
  0 100   0\t\tDarkGreen
 85 107  47\t\tdark olive green
 85 107  47\t\tDarkOliveGreen
143 188 143\t\tdark sea green
143 188 143\t\tDarkSeaGreen
 46 139  87\t\tsea green
 46 139  87\t\tSeaGreen
 60 179 113\t\tmedium sea green
 60 179 113\t\tMediumSeaGreen
 32 178 170\t\tlight sea green
 32 178 170\t\tLightSeaGreen
152 251 152\t\tpale green
152 251 152\t\tPaleGreen
  0 255 127\t\tspring green
  0 255 127\t\tSpringGreen
124 252   0\t\tlawn green
124 252   0\t\tLawnGreen
  0 255   0\t\tgreen
127 255   0\t\tchartreuse
  0 250 154\t\tmedium spring green
  0 250 154\t\tMediumSpringGreen
173 255  47\t\tgreen yellow
173 255  47\t\tGreenYellow
 50 205  50\t\tlime green
 50 205  50\t\tLimeGreen
154 205  50\t\tyellow green
154 205  50\t\tYellowGreen
 34 139  34\t\tforest green
 34 139  34\t\tForestGreen
107 142  35\t\tolive drab
107 142  35\t\tOliveDrab
189 183 107\t\tdark khaki
189 183 107\t\tDarkKhaki
240 230 140\t\tkhaki
238 232 170\t\tpale goldenrod
238 232 170\t\tPaleGoldenrod
250 250 210\t\tlight goldenrod yellow
250 250 210\t\tLightGoldenrodYellow
255 255 224\t\tlight yellow
255 255 224\t\tLightYellow
255 255   0\t\tyellow
255 215   0 \t\tgold
238 221 130\t\tlight goldenrod
238 221 130\t\tLightGoldenrod
218 165  32\t\tgoldenrod
184 134  11\t\tdark goldenrod
184 134  11\t\tDarkGoldenrod
188 143 143\t\trosy brown
188 143 143\t\tRosyBrown
205  92  92\t\tindian red
205  92  92\t\tIndianRed
139  69  19\t\tsaddle brown
139  69  19\t\tSaddleBrown
160  82  45\t\tsienna
205 133  63\t\tperu
222 184 135\t\tburlywood
245 245 220\t\tbeige
245 222 179\t\twheat
244 164  96\t\tsandy brown
244 164  96\t\tSandyBrown
210 180 140\t\ttan
210 105  30\t\tchocolate
178  34  34\t\tfirebrick
165  42  42\t\tbrown
233 150 122\t\tdark salmon
233 150 122\t\tDarkSalmon
250 128 114\t\tsalmon
255 160 122\t\tlight salmon
255 160 122\t\tLightSalmon
255 165   0\t\torange
255 140   0\t\tdark orange
255 140   0\t\tDarkOrange
255 127  80\t\tcoral
240 128 128\t\tlight coral
240 128 128\t\tLightCoral
255  99  71\t\ttomato
255  69   0\t\torange red
255  69   0\t\tOrangeRed
255   0   0\t\tred
255 105 180\t\thot pink
255 105 180\t\tHotPink
255  20 147\t\tdeep pink
255  20 147\t\tDeepPink
255 192 203\t\tpink
255 182 193\t\tlight pink
255 182 193\t\tLightPink
219 112 147\t\tpale violet red
219 112 147\t\tPaleVioletRed
176  48  96\t\tmaroon
199  21 133\t\tmedium violet red
199  21 133\t\tMediumVioletRed
208  32 144\t\tviolet red
208  32 144\t\tVioletRed
255   0 255\t\tmagenta
238 130 238\t\tviolet
221 160 221\t\tplum
218 112 214\t\torchid
186  85 211\t\tmedium orchid
186  85 211\t\tMediumOrchid
153  50 204\t\tdark orchid
153  50 204\t\tDarkOrchid
148   0 211\t\tdark violet
148   0 211\t\tDarkViolet
138  43 226\t\tblue violet
138  43 226\t\tBlueViolet
160  32 240\t\tpurple
147 112 219\t\tmedium purple
147 112 219\t\tMediumPurple
216 191 216\t\tthistle
255 250 250\t\tsnow1
238 233 233\t\tsnow2
205 201 201\t\tsnow3
139 137 137\t\tsnow4
255 245 238\t\tseashell1
238 229 222\t\tseashell2
205 197 191\t\tseashell3
139 134 130\t\tseashell4
255 239 219\t\tAntiqueWhite1
238 223 204\t\tAntiqueWhite2
205 192 176\t\tAntiqueWhite3
139 131 120\t\tAntiqueWhite4
255 228 196\t\tbisque1
238 213 183\t\tbisque2
205 183 158\t\tbisque3
139 125 107\t\tbisque4
255 218 185\t\tPeachPuff1
238 203 173\t\tPeachPuff2
205 175 149\t\tPeachPuff3
139 119 101\t\tPeachPuff4
255 222 173\t\tNavajoWhite1
238 207 161\t\tNavajoWhite2
205 179 139\t\tNavajoWhite3
139 121\t 94\t\tNavajoWhite4
255 250 205\t\tLemonChiffon1
238 233 191\t\tLemonChiffon2
205 201 165\t\tLemonChiffon3
139 137 112\t\tLemonChiffon4
255 248 220\t\tcornsilk1
238 232 205\t\tcornsilk2
205 200 177\t\tcornsilk3
139 136 120\t\tcornsilk4
255 255 240\t\tivory1
238 238 224\t\tivory2
205 205 193\t\tivory3
139 139 131\t\tivory4
240 255 240\t\thoneydew1
224 238 224\t\thoneydew2
193 205 193\t\thoneydew3
131 139 131\t\thoneydew4
255 240 245\t\tLavenderBlush1
238 224 229\t\tLavenderBlush2
205 193 197\t\tLavenderBlush3
139 131 134\t\tLavenderBlush4
255 228 225\t\tMistyRose1
238 213 210\t\tMistyRose2
205 183 181\t\tMistyRose3
139 125 123\t\tMistyRose4
240 255 255\t\tazure1
224 238 238\t\tazure2
193 205 205\t\tazure3
131 139 139\t\tazure4
131 111 255\t\tSlateBlue1
122 103 238\t\tSlateBlue2
105  89 205\t\tSlateBlue3
 71  60 139\t\tSlateBlue4
 72 118 255\t\tRoyalBlue1
 67 110 238\t\tRoyalBlue2
 58  95 205\t\tRoyalBlue3
 39  64 139\t\tRoyalBlue4
  0   0 255\t\tblue1
  0   0 238\t\tblue2
  0   0 205\t\tblue3
  0   0 139\t\tblue4
 30 144 255\t\tDodgerBlue1
 28 134 238\t\tDodgerBlue2
 24 116 205\t\tDodgerBlue3
 16  78 139\t\tDodgerBlue4
 99 184 255\t\tSteelBlue1
 92 172 238\t\tSteelBlue2
 79 148 205\t\tSteelBlue3
 54 100 139\t\tSteelBlue4
  0 191 255\t\tDeepSkyBlue1
  0 178 238\t\tDeepSkyBlue2
  0 154 205\t\tDeepSkyBlue3
  0 104 139\t\tDeepSkyBlue4
135 206 255\t\tSkyBlue1
126 192 238\t\tSkyBlue2
108 166 205\t\tSkyBlue3
 74 112 139\t\tSkyBlue4
176 226 255\t\tLightSkyBlue1
164 211 238\t\tLightSkyBlue2
141 182 205\t\tLightSkyBlue3
 96 123 139\t\tLightSkyBlue4
198 226 255\t\tSlateGray1
185 211 238\t\tSlateGray2
159 182 205\t\tSlateGray3
108 123 139\t\tSlateGray4
202 225 255\t\tLightSteelBlue1
188 210 238\t\tLightSteelBlue2
162 181 205\t\tLightSteelBlue3
110 123 139\t\tLightSteelBlue4
191 239 255\t\tLightBlue1
178 223 238\t\tLightBlue2
154 192 205\t\tLightBlue3
104 131 139\t\tLightBlue4
224 255 255\t\tLightCyan1
209 238 238\t\tLightCyan2
180 205 205\t\tLightCyan3
122 139 139\t\tLightCyan4
187 255 255\t\tPaleTurquoise1
174 238 238\t\tPaleTurquoise2
150 205 205\t\tPaleTurquoise3
102 139 139\t\tPaleTurquoise4
152 245 255\t\tCadetBlue1
142 229 238\t\tCadetBlue2
122 197 205\t\tCadetBlue3
 83 134 139\t\tCadetBlue4
  0 245 255\t\tturquoise1
  0 229 238\t\tturquoise2
  0 197 205\t\tturquoise3
  0 134 139\t\tturquoise4
  0 255 255\t\tcyan1
  0 238 238\t\tcyan2
  0 205 205\t\tcyan3
  0 139 139\t\tcyan4
151 255 255\t\tDarkSlateGray1
141 238 238\t\tDarkSlateGray2
121 205 205\t\tDarkSlateGray3
 82 139 139\t\tDarkSlateGray4
127 255 212\t\taquamarine1
118 238 198\t\taquamarine2
102 205 170\t\taquamarine3
 69 139 116\t\taquamarine4
193 255 193\t\tDarkSeaGreen1
180 238 180\t\tDarkSeaGreen2
155 205 155\t\tDarkSeaGreen3
105 139 105\t\tDarkSeaGreen4
 84 255 159\t\tSeaGreen1
 78 238 148\t\tSeaGreen2
 67 205 128\t\tSeaGreen3
 46 139\t 87\t\tSeaGreen4
154 255 154\t\tPaleGreen1
144 238 144\t\tPaleGreen2
124 205 124\t\tPaleGreen3
 84 139\t 84\t\tPaleGreen4
  0 255 127\t\tSpringGreen1
  0 238 118\t\tSpringGreen2
  0 205 102\t\tSpringGreen3
  0 139\t 69\t\tSpringGreen4
  0 255\t  0\t\tgreen1
  0 238\t  0\t\tgreen2
  0 205\t  0\t\tgreen3
  0 139\t  0\t\tgreen4
127 255\t  0\t\tchartreuse1
118 238\t  0\t\tchartreuse2
102 205\t  0\t\tchartreuse3
 69 139\t  0\t\tchartreuse4
192 255\t 62\t\tOliveDrab1
179 238\t 58\t\tOliveDrab2
154 205\t 50\t\tOliveDrab3
105 139\t 34\t\tOliveDrab4
202 255 112\t\tDarkOliveGreen1
188 238 104\t\tDarkOliveGreen2
162 205\t 90\t\tDarkOliveGreen3
110 139\t 61\t\tDarkOliveGreen4
255 246 143\t\tkhaki1
238 230 133\t\tkhaki2
205 198 115\t\tkhaki3
139 134\t 78\t\tkhaki4
255 236 139\t\tLightGoldenrod1
238 220 130\t\tLightGoldenrod2
205 190 112\t\tLightGoldenrod3
139 129\t 76\t\tLightGoldenrod4
255 255 224\t\tLightYellow1
238 238 209\t\tLightYellow2
205 205 180\t\tLightYellow3
139 139 122\t\tLightYellow4
255 255\t  0\t\tyellow1
238 238\t  0\t\tyellow2
205 205\t  0\t\tyellow3
139 139\t  0\t\tyellow4
255 215\t  0\t\tgold1
238 201\t  0\t\tgold2
205 173\t  0\t\tgold3
139 117\t  0\t\tgold4
255 193\t 37\t\tgoldenrod1
238 180\t 34\t\tgoldenrod2
205 155\t 29\t\tgoldenrod3
139 105\t 20\t\tgoldenrod4
255 185\t 15\t\tDarkGoldenrod1
238 173\t 14\t\tDarkGoldenrod2
205 149\t 12\t\tDarkGoldenrod3
139 101\t  8\t\tDarkGoldenrod4
255 193 193\t\tRosyBrown1
238 180 180\t\tRosyBrown2
205 155 155\t\tRosyBrown3
139 105 105\t\tRosyBrown4
255 106 106\t\tIndianRed1
238  99\t 99\t\tIndianRed2
205  85\t 85\t\tIndianRed3
139  58\t 58\t\tIndianRed4
255 130\t 71\t\tsienna1
238 121\t 66\t\tsienna2
205 104\t 57\t\tsienna3
139  71\t 38\t\tsienna4
255 211 155\t\tburlywood1
238 197 145\t\tburlywood2
205 170 125\t\tburlywood3
139 115\t 85\t\tburlywood4
255 231 186\t\twheat1
238 216 174\t\twheat2
205 186 150\t\twheat3
139 126 102\t\twheat4
255 165\t 79\t\ttan1
238 154\t 73\t\ttan2
205 133\t 63\t\ttan3
139  90\t 43\t\ttan4
255 127\t 36\t\tchocolate1
238 118\t 33\t\tchocolate2
205 102\t 29\t\tchocolate3
139  69\t 19\t\tchocolate4
255  48\t 48\t\tfirebrick1
238  44\t 44\t\tfirebrick2
205  38\t 38\t\tfirebrick3
139  26\t 26\t\tfirebrick4
255  64\t 64\t\tbrown1
238  59\t 59\t\tbrown2
205  51\t 51\t\tbrown3
139  35\t 35\t\tbrown4
255 140 105\t\tsalmon1
238 130\t 98\t\tsalmon2
205 112\t 84\t\tsalmon3
139  76\t 57\t\tsalmon4
255 160 122\t\tLightSalmon1
238 149 114\t\tLightSalmon2
205 129\t 98\t\tLightSalmon3
139  87\t 66\t\tLightSalmon4
255 165\t  0\t\torange1
238 154\t  0\t\torange2
205 133\t  0\t\torange3
139  90\t  0\t\torange4
255 127\t  0\t\tDarkOrange1
238 118\t  0\t\tDarkOrange2
205 102\t  0\t\tDarkOrange3
139  69\t  0\t\tDarkOrange4
255 114\t 86\t\tcoral1
238 106\t 80\t\tcoral2
205  91\t 69\t\tcoral3
139  62\t 47\t\tcoral4
255  99\t 71\t\ttomato1
238  92\t 66\t\ttomato2
205  79\t 57\t\ttomato3
139  54\t 38\t\ttomato4
255  69\t  0\t\tOrangeRed1
238  64\t  0\t\tOrangeRed2
205  55\t  0\t\tOrangeRed3
139  37\t  0\t\tOrangeRed4
255   0\t  0\t\tred1
238   0\t  0\t\tred2
205   0\t  0\t\tred3
139   0\t  0\t\tred4
215   7  81\t\tDebianRed
255  20 147\t\tDeepPink1
238  18 137\t\tDeepPink2
205  16 118\t\tDeepPink3
139  10\t 80\t\tDeepPink4
255 110 180\t\tHotPink1
238 106 167\t\tHotPink2
205  96 144\t\tHotPink3
139  58  98\t\tHotPink4
255 181 197\t\tpink1
238 169 184\t\tpink2
205 145 158\t\tpink3
139  99 108\t\tpink4
255 174 185\t\tLightPink1
238 162 173\t\tLightPink2
205 140 149\t\tLightPink3
139  95 101\t\tLightPink4
255 130 171\t\tPaleVioletRed1
238 121 159\t\tPaleVioletRed2
205 104 137\t\tPaleVioletRed3
139  71\t 93\t\tPaleVioletRed4
255  52 179\t\tmaroon1
238  48 167\t\tmaroon2
205  41 144\t\tmaroon3
139  28\t 98\t\tmaroon4
255  62 150\t\tVioletRed1
238  58 140\t\tVioletRed2
205  50 120\t\tVioletRed3
139  34\t 82\t\tVioletRed4
255   0 255\t\tmagenta1
238   0 238\t\tmagenta2
205   0 205\t\tmagenta3
139   0 139\t\tmagenta4
255 131 250\t\torchid1
238 122 233\t\torchid2
205 105 201\t\torchid3
139  71 137\t\torchid4
255 187 255\t\tplum1
238 174 238\t\tplum2
205 150 205\t\tplum3
139 102 139\t\tplum4
224 102 255\t\tMediumOrchid1
209  95 238\t\tMediumOrchid2
180  82 205\t\tMediumOrchid3
122  55 139\t\tMediumOrchid4
191  62 255\t\tDarkOrchid1
178  58 238\t\tDarkOrchid2
154  50 205\t\tDarkOrchid3
104  34 139\t\tDarkOrchid4
155  48 255\t\tpurple1
145  44 238\t\tpurple2
125  38 205\t\tpurple3
 85  26 139\t\tpurple4
171 130 255\t\tMediumPurple1
159 121 238\t\tMediumPurple2
137 104 205\t\tMediumPurple3
 93  71 139\t\tMediumPurple4
255 225 255\t\tthistle1
238 210 238\t\tthistle2
205 181 205\t\tthistle3
139 123 139\t\tthistle4
  0   0   0\t\tgray0
  0   0   0\t\tgrey0
  3   3   3\t\tgray1
  3   3   3\t\tgrey1
  5   5   5\t\tgray2
  5   5   5\t\tgrey2
  8   8   8\t\tgray3
  8   8   8\t\tgrey3
 10  10  10 \t\tgray4
 10  10  10 \t\tgrey4
 13  13  13 \t\tgray5
 13  13  13 \t\tgrey5
 15  15  15 \t\tgray6
 15  15  15 \t\tgrey6
 18  18  18 \t\tgray7
 18  18  18 \t\tgrey7
 20  20  20 \t\tgray8
 20  20  20 \t\tgrey8
 23  23  23 \t\tgray9
 23  23  23 \t\tgrey9
 26  26  26 \t\tgray10
 26  26  26 \t\tgrey10
 28  28  28 \t\tgray11
 28  28  28 \t\tgrey11
 31  31  31 \t\tgray12
 31  31  31 \t\tgrey12
 33  33  33 \t\tgray13
 33  33  33 \t\tgrey13
 36  36  36 \t\tgray14
 36  36  36 \t\tgrey14
 38  38  38 \t\tgray15
 38  38  38 \t\tgrey15
 41  41  41 \t\tgray16
 41  41  41 \t\tgrey16
 43  43  43 \t\tgray17
 43  43  43 \t\tgrey17
 46  46  46 \t\tgray18
 46  46  46 \t\tgrey18
 48  48  48 \t\tgray19
 48  48  48 \t\tgrey19
 51  51  51 \t\tgray20
 51  51  51 \t\tgrey20
 54  54  54 \t\tgray21
 54  54  54 \t\tgrey21
 56  56  56 \t\tgray22
 56  56  56 \t\tgrey22
 59  59  59 \t\tgray23
 59  59  59 \t\tgrey23
 61  61  61 \t\tgray24
 61  61  61 \t\tgrey24
 64  64  64 \t\tgray25
 64  64  64 \t\tgrey25
 66  66  66 \t\tgray26
 66  66  66 \t\tgrey26
 69  69  69 \t\tgray27
 69  69  69 \t\tgrey27
 71  71  71 \t\tgray28
 71  71  71 \t\tgrey28
 74  74  74 \t\tgray29
 74  74  74 \t\tgrey29
 77  77  77 \t\tgray30
 77  77  77 \t\tgrey30
 79  79  79 \t\tgray31
 79  79  79 \t\tgrey31
 82  82  82 \t\tgray32
 82  82  82 \t\tgrey32
 84  84  84 \t\tgray33
 84  84  84 \t\tgrey33
 87  87  87 \t\tgray34
 87  87  87 \t\tgrey34
 89  89  89 \t\tgray35
 89  89  89 \t\tgrey35
 92  92  92 \t\tgray36
 92  92  92 \t\tgrey36
 94  94  94 \t\tgray37
 94  94  94 \t\tgrey37
 97  97  97 \t\tgray38
 97  97  97 \t\tgrey38
 99  99  99 \t\tgray39
 99  99  99 \t\tgrey39
102 102 102 \t\tgray40
102 102 102 \t\tgrey40
105 105 105 \t\tgray41
105 105 105 \t\tgrey41
107 107 107 \t\tgray42
107 107 107 \t\tgrey42
110 110 110 \t\tgray43
110 110 110 \t\tgrey43
112 112 112 \t\tgray44
112 112 112 \t\tgrey44
115 115 115 \t\tgray45
115 115 115 \t\tgrey45
117 117 117 \t\tgray46
117 117 117 \t\tgrey46
120 120 120 \t\tgray47
120 120 120 \t\tgrey47
122 122 122 \t\tgray48
122 122 122 \t\tgrey48
125 125 125 \t\tgray49
125 125 125 \t\tgrey49
127 127 127 \t\tgray50
127 127 127 \t\tgrey50
130 130 130 \t\tgray51
130 130 130 \t\tgrey51
133 133 133 \t\tgray52
133 133 133 \t\tgrey52
135 135 135 \t\tgray53
135 135 135 \t\tgrey53
138 138 138 \t\tgray54
138 138 138 \t\tgrey54
140 140 140 \t\tgray55
140 140 140 \t\tgrey55
143 143 143 \t\tgray56
143 143 143 \t\tgrey56
145 145 145 \t\tgray57
145 145 145 \t\tgrey57
148 148 148 \t\tgray58
148 148 148 \t\tgrey58
150 150 150 \t\tgray59
150 150 150 \t\tgrey59
153 153 153 \t\tgray60
153 153 153 \t\tgrey60
156 156 156 \t\tgray61
156 156 156 \t\tgrey61
158 158 158 \t\tgray62
158 158 158 \t\tgrey62
161 161 161 \t\tgray63
161 161 161 \t\tgrey63
163 163 163 \t\tgray64
163 163 163 \t\tgrey64
166 166 166 \t\tgray65
166 166 166 \t\tgrey65
168 168 168 \t\tgray66
168 168 168 \t\tgrey66
171 171 171 \t\tgray67
171 171 171 \t\tgrey67
173 173 173 \t\tgray68
173 173 173 \t\tgrey68
176 176 176 \t\tgray69
176 176 176 \t\tgrey69
179 179 179 \t\tgray70
179 179 179 \t\tgrey70
181 181 181 \t\tgray71
181 181 181 \t\tgrey71
184 184 184 \t\tgray72
184 184 184 \t\tgrey72
186 186 186 \t\tgray73
186 186 186 \t\tgrey73
189 189 189 \t\tgray74
189 189 189 \t\tgrey74
191 191 191 \t\tgray75
191 191 191 \t\tgrey75
194 194 194 \t\tgray76
194 194 194 \t\tgrey76
196 196 196 \t\tgray77
196 196 196 \t\tgrey77
199 199 199 \t\tgray78
199 199 199 \t\tgrey78
201 201 201 \t\tgray79
201 201 201 \t\tgrey79
204 204 204 \t\tgray80
204 204 204 \t\tgrey80
207 207 207 \t\tgray81
207 207 207 \t\tgrey81
209 209 209 \t\tgray82
209 209 209 \t\tgrey82
212 212 212 \t\tgray83
212 212 212 \t\tgrey83
214 214 214 \t\tgray84
214 214 214 \t\tgrey84
217 217 217 \t\tgray85
217 217 217 \t\tgrey85
219 219 219 \t\tgray86
219 219 219 \t\tgrey86
222 222 222 \t\tgray87
222 222 222 \t\tgrey87
224 224 224 \t\tgray88
224 224 224 \t\tgrey88
227 227 227 \t\tgray89
227 227 227 \t\tgrey89
229 229 229 \t\tgray90
229 229 229 \t\tgrey90
232 232 232 \t\tgray91
232 232 232 \t\tgrey91
235 235 235 \t\tgray92
235 235 235 \t\tgrey92
237 237 237 \t\tgray93
237 237 237 \t\tgrey93
240 240 240 \t\tgray94
240 240 240 \t\tgrey94
242 242 242 \t\tgray95
242 242 242 \t\tgrey95
245 245 245 \t\tgray96
245 245 245 \t\tgrey96
247 247 247 \t\tgray97
247 247 247 \t\tgrey97
250 250 250 \t\tgray98
250 250 250 \t\tgrey98
252 252 252 \t\tgray99
252 252 252 \t\tgrey99
255 255 255 \t\tgray100
255 255 255 \t\tgrey100
169 169 169\t\tdark grey
169 169 169\t\tDarkGrey
169 169 169\t\tdark gray
169 169 169\t\tDarkGray
0     0 139\t\tdark blue
0     0 139\t\tDarkBlue
0   139 139\t\tdark cyan
0   139 139\t\tDarkCyan
139   0 139\t\tdark magenta
139   0 139\t\tDarkMagenta
139   0   0\t\tdark red
139   0   0\t\tDarkRed
144 238 144\t\tlight green
144 238 144\t\tLightGreen"@
}

/// The colour definitions, as lines of text.
pub fn colour_list_text() -> (r: &'static str)
    ensures
        r@ == spec_colour_list(),
{
    "255 250 250\t\tsnow
248 248 255\t\tghost white
248 248 255\t\tGhostWhite
245 245 245\t\twhite smoke
245 245 245\t\tWhiteSmoke
220 220 220\t\tgainsboro
255 250 240\t\tfloral white
255 250 240\t\tFloralWhite
253 245 230\t\told lace
253 245 230\t\tOldLace
250 240 230\t\tlinen
250 235 215\t\tantique white
250 235 215\t\tAntiqueWhite
255 239 213\t\tpapaya whip
255 239 213\t\tPapayaWhip
255 235 205\t\tblanched almond
255 235 205\t\tBlanchedAlmond
255 228 196\t\tbisque
255 218 185\t\tpeach puff
255 218 185\t\tPeachPuff
255 222 173\t\tnavajo white
255 222 173\t\tNavajoWhite
255 228 181\t\tmoccasin
255 248 220\t\tcornsilk
255 255 240\t\tivory
255 250 205\t\tlemon chiffon
255 250 205\t\tLemonChiffon
255 245 238\t\tseashell
240 255 240\t\thoneydew
245 255 250\t\tmint cream
245 255 250\t\tMintCream
240 255 255\t\tazure
240 248 255\t\talice blue
240 248 255\t\tAliceBlue
230 230 250\t\tlavender
255 240 245\t\tlavender blush
255 240 245\t\tLavenderBlush
255 228 225\t\tmisty rose
255 228 225\t\tMistyRose
255 255 255\t\twhite
  0   0   0\t\tblack
 47  79  79\t\tdark slate gray
 47  79  79\t\tDarkSlateGray
 47  79  79\t\tdark slate grey
 47  79  79\t\tDarkSlateGrey
105 105 105\t\tdim gray
105 105 105\t\tDimGray
105 105 105\t\tdim grey
105 105 105\t\tDimGrey
112 128 144\t\tslate gray
112 128 144\t\tSlateGray
112 128 144\t\tslate grey
112 128 144\t\tSlateGrey
119 136 153\t\tlight slate gray
119 136 153\t\tLightSlateGray
119 136 153\t\tlight slate grey
119 136 153\t\tLightSlateGrey
190 190 190\t\tgray
190 190 190\t\tgrey
211 211 211\t\tlight grey
211 211 211\t\tLightGrey
211 211 211\t\tlight gray
211 211 211\t\tLightGray
 25  25 112\t\tmidnight blue
 25  25 112\t\tMidnightBlue
  0   0 128\t\tnavy
  0   0 128\t\tnavy blue
  0   0 128\t\tNavyBlue
100 149 237\t\tcornflower blue
100 149 237\t\tCornflowerBlue
 72  61 139\t\tdark slate blue
 72  61 139\t\tDarkSlateBlue
106  90 205\t\tslate blue
106  90 205\t\tSlateBlue
123 104 238\t\tmedium slate blue
123 104 238\t\tMediumSlateBlue
132 112 255\t\tlight slate blue
132 112 255\t\tLightSlateBlue
  0   0 205\t\tmedium blue
  0   0 205\t\tMediumBlue
 65 105 225\t\troyal blue
 65 105 225\t\tRoyalBlue
  0   0 255\t\tblue
 30 144 255\t\tdodger blue
 30 144 255\t\tDodgerBlue
  0 191 255\t\tdeep sky blue
  0 191 255\t\tDeepSkyBlue
135 206 235\t\tsky blue
135 206 235\t\tSkyBlue
135 206 250\t\tlight sky blue
135 206 250\t\tLightSkyBlue
 70 130 180\t\tsteel blue
 70 130 180\t\tSteelBlue
176 196 222\t\tlight steel blue
176 196 222\t\tLightSteelBlue
173 216 230\t\tlight blue
173 216 230\t\tLightBlue
176 224 230\t\tpowder blue
176 224 230\t\tPowderBlue
175 238 238\t\tpale turquoise
175 238 238\t\tPaleTurquoise
  0 206 209\t\tdark turquoise
  0 206 209\t\tDarkTurquoise
 72 209 204\t\tmedium turquoise
 72 209 204\t\tMediumTurquoise
 64 224 208\t\tturquoise
  0 255 255\t\tcyan
224 255 255\t\tlight cyan
224 255 255\t\tLightCyan
 95 158 160\t\tcadet blue
 95 158 160\t\tCadetBlue
102 205 170\t\tmedium aquamarine
102 205 170\t\tMediumAquamarine
127 255 212\t\taquamarine
  0 100   0\t\tdark green
  0 100   0\t\tDarkGreen
 85 107  47\t\tdark olive green
 85 107  47\t\tDarkOliveGreen
143 188 143\t\tdark sea green
143 188 143\t\tDarkSeaGreen
 46 139  87\t\tsea green
 46 139  87\t\tSeaGreen
 60 179 113\t\tmedium sea green
 60 179 113\t\tMediumSeaGreen
 32 178 170\t\tlight sea green
 32 178 170\t\tLightSeaGreen
152 251 152\t\tpale green
152 251 152\t\tPaleGreen
  0 255 127\t\tspring green
  0 255 127\t\tSpringGreen
124 252   0\t\tlawn green
124 252   0\t\tLawnGreen
  0 255   0\t\tgreen
127 255   0\t\tchartreuse
  0 250 154\t\tmedium spring green
  0 250 154\t\tMediumSpringGreen
173 255  47\t\tgreen yellow
173 255  47\t\tGreenYellow
 50 205  50\t\tlime green
 50 205  50\t\tLimeGreen
154 205  50\t\tyellow green
154 205  50\t\tYellowGreen
 34 139  34\t\tforest green
 34 139  34\t\tForestGreen
107 142  35\t\tolive drab
107 142  35\t\tOliveDrab
189 183 107\t\tdark khaki
189 183 107\t\tDarkKhaki
240 230 140\t\tkhaki
238 232 170\t\tpale goldenrod
238 232 170\t\tPaleGoldenrod
250 250 210\t\tlight goldenrod yellow
250 250 210\t\tLightGoldenrodYellow
255 255 224\t\tlight yellow
255 255 224\t\tLightYellow
255 255   0\t\tyellow
255 215   0 \t\tgold
238 221 130\t\tlight goldenrod
238 221 130\t\tLightGoldenrod
218 165  32\t\tgoldenrod
184 134  11\t\tdark goldenrod
184 134  11\t\tDarkGoldenrod
188 143 143\t\trosy brown
188 143 143\t\tRosyBrown
205  92  92\t\tindian red
205  92  92\t\tIndianRed
139  69  19\t\tsaddle brown
139  69  19\t\tSaddleBrown
160  82  45\t\tsienna
205 133  63\t\tperu
222 184 135\t\tburlywood
245 245 220\t\tbeige
245 222 179\t\twheat
244 164  96\t\tsandy brown
244 164  96\t\tSandyBrown
210 180 140\t\ttan
210 105  30\t\tchocolate
178  34  34\t\tfirebrick
165  42  42\t\tbrown
233 150 122\t\tdark salmon
233 150 122\t\tDarkSalmon
250 128 114\t\tsalmon
255 160 122\t\tlight salmon
255 160 122\t\tLightSalmon
255 165   0\t\torange
255 140   0\t\tdark orange
255 140   0\t\tDarkOrange
255 127  80\t\tcoral
240 128 128\t\tlight coral
240 128 128\t\tLightCoral
255  99  71\t\ttomato
255  69   0\t\torange red
255  69   0\t\tOrangeRed
255   0   0\t\tred
255 105 180\t\thot pink
255 105 180\t\tHotPink
255  20 147\t\tdeep pink
255  20 147\t\tDeepPink
255 192 203\t\tpink
255 182 193\t\tlight pink
255 182 193\t\tLightPink
219 112 147\t\tpale violet red
219 112 147\t\tPaleVioletRed
176  48  96\t\tmaroon
199  21 133\t\tmedium violet red
199  21 133\t\tMediumVioletRed
208  32 144\t\tviolet red
208  32 144\t\tVioletRed
255   0 255\t\tmagenta
238 130 238\t\tviolet
221 160 221\t\tplum
218 112 214\t\torchid
186  85 211\t\tmedium orchid
186  85 211\t\tMediumOrchid
153  50 204\t\tdark orchid
153  50 204\t\tDarkOrchid
148   0 211\t\tdark violet
148   0 211\t\tDarkViolet
138  43 226\t\tblue violet
138  43 226\t\tBlueViolet
160  32 240\t\tpurple
147 112 219\t\tmedium purple
147 112 219\t\tMediumPurple
216 191 216\t\tthistle
255 250 250\t\tsnow1
238 233 233\t\tsnow2
205 201 201\t\tsnow3
139 137 137\t\tsnow4
255 245 238\t\tseashell1
238 229 222\t\tseashell2
205 197 191\t\tseashell3
139 134 130\t\tseashell4
255 239 219\t\tAntiqueWhite1
238 223 204\t\tAntiqueWhite2
205 192 176\t\tAntiqueWhite3
139 131 120\t\tAntiqueWhite4
255 228 196\t\tbisque1
238 213 183\t\tbisque2
205 183 158\t\tbisque3
139 125 107\t\tbisque4
255 218 185\t\tPeachPuff1
238 203 173\t\tPeachPuff2
205 175 149\t\tPeachPuff3
139 119 101\t\tPeachPuff4
255 222 173\t\tNavajoWhite1
238 207 161\t\tNavajoWhite2
205 179 139\t\tNavajoWhite3
139 121\t 94\t\tNavajoWhite4
255 250 205\t\tLemonChiffon1
238 233 191\t\tLemonChiffon2
205 201 165\t\tLemonChiffon3
139 137 112\t\tLemonChiffon4
255 248 220\t\tcornsilk1
238 232 205\t\tcornsilk2
205 200 177\t\tcornsilk3
139 136 120\t\tcornsilk4
255 255 240\t\tivory1
238 238 224\t\tivory2
205 205 193\t\tivory3
139 139 131\t\tivory4
240 255 240\t\thoneydew1
224 238 224\t\thoneydew2
193 205 193\t\thoneydew3
131 139 131\t\thoneydew4
255 240 245\t\tLavenderBlush1
238 224 229\t\tLavenderBlush2
205 193 197\t\tLavenderBlush3
139 131 134\t\tLavenderBlush4
255 228 225\t\tMistyRose1
238 213 210\t\tMistyRose2
205 183 181\t\tMistyRose3
139 125 123\t\tMistyRose4
240 255 255\t\tazure1
224 238 238\t\tazure2
193 205 205\t\tazure3
131 139 139\t\tazure4
131 111 255\t\tSlateBlue1
122 103 238\t\tSlateBlue2
105  89 205\t\tSlateBlue3
 71  60 139\t\tSlateBlue4
 72 118 255\t\tRoyalBlue1
 67 110 238\t\tRoyalBlue2
 58  95 205\t\tRoyalBlue3
 39  64 139\t\tRoyalBlue4
  0   0 255\t\tblue1
  0   0 238\t\tblue2
  0   0 205\t\tblue3
  0   0 139\t\tblue4
 30 144 255\t\tDodgerBlue1
 28 134 238\t\tDodgerBlue2
 24 116 205\t\tDodgerBlue3
 16  78 139\t\tDodgerBlue4
 99 184 255\t\tSteelBlue1
 92 172 238\t\tSteelBlue2
 79 148 205\t\tSteelBlue3
 54 100 139\t\tSteelBlue4
  0 191 255\t\tDeepSkyBlue1
  0 178 238\t\tDeepSkyBlue2
  0 154 205\t\tDeepSkyBlue3
  0 104 139\t\tDeepSkyBlue4
135 206 255\t\tSkyBlue1
126 192 238\t\tSkyBlue2
108 166 205\t\tSkyBlue3
 74 112 139\t\tSkyBlue4
176 226 255\t\tLightSkyBlue1
164 211 238\t\tLightSkyBlue2
141 182 205\t\tLightSkyBlue3
 96 123 139\t\tLightSkyBlue4
198 226 255\t\tSlateGray1
185 211 238\t\tSlateGray2
159 182 205\t\tSlateGray3
108 123 139\t\tSlateGray4
202 225 255\t\tLightSteelBlue1
188 210 238\t\tLightSteelBlue2
162 181 205\t\tLightSteelBlue3
110 123 139\t\tLightSteelBlue4
191 239 255\t\tLightBlue1
178 223 238\t\tLightBlue2
154 192 205\t\tLightBlue3
104 131 139\t\tLightBlue4
224 255 255\t\tLightCyan1
209 238 238\t\tLightCyan2
180 205 205\t\tLightCyan3
122 139 139\t\tLightCyan4
187 255 255\t\tPaleTurquoise1
174 238 238\t\tPaleTurquoise2
150 205 205\t\tPaleTurquoise3
102 139 139\t\tPaleTurquoise4
152 245 255\t\tCadetBlue1
142 229 238\t\tCadetBlue2
122 197 205\t\tCadetBlue3
 83 134 139\t\tCadetBlue4
  0 245 255\t\tturquoise1
  0 229 238\t\tturquoise2
  0 197 205\t\tturquoise3
  0 134 139\t\tturquoise4
  0 255 255\t\tcyan1
  0 238 238\t\tcyan2
  0 205 205\t\tcyan3
  0 139 139\t\tcyan4
151 255 255\t\tDarkSlateGray1
141 238 238\t\tDarkSlateGray2
121 205 205\t\tDarkSlateGray3
 82 139 139\t\tDarkSlateGray4
127 255 212\t\taquamarine1
118 238 198\t\taquamarine2
102 205 170\t\taquamarine3
 69 139 116\t\taquamarine4
193 255 193\t\tDarkSeaGreen1
180 238 180\t\tDarkSeaGreen2
155 205 155\t\tDarkSeaGreen3
105 139 105\t\tDarkSeaGreen4
 84 255 159\t\tSeaGreen1
 78 238 148\t\tSeaGreen2
 67 205 128\t\tSeaGreen3
 46 139\t 87\t\tSeaGreen4
154 255 154\t\tPaleGreen1
144 238 144\t\tPaleGreen2
124 205 124\t\tPaleGreen3
 84 139\t 84\t\tPaleGreen4
  0 255 127\t\tSpringGreen1
  0 238 118\t\tSpringGreen2
  0 205 102\t\tSpringGreen3
  0 139\t 69\t\tSpringGreen4
  0 255\t  0\t\tgreen1
  0 238\t  0\t\tgreen2
  0 205\t  0\t\tgreen3
  0 139\t  0\t\tgreen4
127 255\t  0\t\tchartreuse1
118 238\t  0\t\tchartreuse2
102 205\t  0\t\tchartreuse3
 69 139\t  0\t\tchartreuse4
192 255\t 62\t\tOliveDrab1
179 238\t 58\t\tOliveDrab2
154 205\t 50\t\tOliveDrab3
105 139\t 34\t\tOliveDrab4
202 255 112\t\tDarkOliveGreen1
188 238 104\t\tDarkOliveGreen2
162 205\t 90\t\tDarkOliveGreen3
110 139\t 61\t\tDarkOliveGreen4
255 246 143\t\tkhaki1
238 230 133\t\tkhaki2
205 198 115\t\tkhaki3
139 134\t 78\t\tkhaki4
255 236 139\t\tLightGoldenrod1
238 220 130\t\tLightGoldenrod2
205 190 112\t\tLightGoldenrod3
139 129\t 76\t\tLightGoldenrod4
255 255 224\t\tLightYellow1
238 238 209\t\tLightYellow2
205 205 180\t\tLightYellow3
139 139 122\t\tLightYellow4
255 255\t  0\t\tyellow1
238 238\t  0\t\tyellow2
205 205\t  0\t\tyellow3
139 139\t  0\t\tyellow4
255 215\t  0\t\tgold1
238 201\t  0\t\tgold2
205 173\t  0\t\tgold3
139 117\t  0\t\tgold4
255 193\t 37\t\tgoldenrod1
238 180\t 34\t\tgoldenrod2
205 155\t 29\t\tgoldenrod3
139 105\t 20\t\tgoldenrod4
255 185\t 15\t\tDarkGoldenrod1
238 173\t 14\t\tDarkGoldenrod2
205 149\t 12\t\tDarkGoldenrod3
139 101\t  8\t\tDarkGoldenrod4
255 193 193\t\tRosyBrown1
238 180 180\t\tRosyBrown2
205 155 155\t\tRosyBrown3
139 105 105\t\tRosyBrown4
255 106 106\t\tIndianRed1
238  99\t 99\t\tIndianRed2
205  85\t 85\t\tIndianRed3
139  58\t 58\t\tIndianRed4
255 130\t 71\t\tsienna1
238 121\t 66\t\tsienna2
205 104\t 57\t\tsienna3
139  71\t 38\t\tsienna4
255 211 155\t\tburlywood1
238 197 145\t\tburlywood2
205 170 125\t\tburlywood3
139 115\t 85\t\tburlywood4
255 231 186\t\twheat1
238 216 174\t\twheat2
205 186 150\t\twheat3
139 126 102\t\twheat4
255 165\t 79\t\ttan1
238 154\t 73\t\ttan2
205 133\t 63\t\ttan3
139  90\t 43\t\ttan4
255 127\t 36\t\tchocolate1
238 118\t 33\t\tchocolate2
205 102\t 29\t\tchocolate3
139  69\t 19\t\tchocolate4
255  48\t 48\t\tfirebrick1
238  44\t 44\t\tfirebrick2
205  38\t 38\t\tfirebrick3
139  26\t 26\t\tfirebrick4
255  64\t 64\t\tbrown1
238  59\t 59\t\tbrown2
205  51\t 51\t\tbrown3
139  35\t 35\t\tbrown4
255 140 105\t\tsalmon1
238 130\t 98\t\tsalmon2
205 112\t 84\t\tsalmon3
139  76\t 57\t\tsalmon4
255 160 122\t\tLightSalmon1
238 149 114\t\tLightSalmon2
205 129\t 98\t\tLightSalmon3
139  87\t 66\t\tLightSalmon4
255 165\t  0\t\torange1
238 154\t  0\t\torange2
205 133\t  0\t\torange3
139  90\t  0\t\torange4
255 127\t  0\t\tDarkOrange1
238 118\t  0\t\tDarkOrange2
205 102\t  0\t\tDarkOrange3
139  69\t  0\t\tDarkOrange4
255 114\t 86\t\tcoral1
238 106\t 80\t\tcoral2
205  91\t 69\t\tcoral3
139  62\t 47\t\tcoral4
255  99\t 71\t\ttomato1
238  92\t 66\t\ttomato2
205  79\t 57\t\ttomato3
139  54\t 38\t\ttomato4
255  69\t  0\t\tOrangeRed1
238  64\t  0\t\tOrangeRed2
205  55\t  0\t\tOrangeRed3
139  37\t  0\t\tOrangeRed4
255   0\t  0\t\tred1
238   0\t  0\t\tred2
205   0\t  0\t\tred3
139   0\t  0\t\tred4
215   7  81\t\tDebianRed
255  20 147\t\tDeepPink1
238  18 137\t\tDeepPink2
205  16 118\t\tDeepPink3
139  10\t 80\t\tDeepPink4
255 110 180\t\tHotPink1
238 106 167\t\tHotPink2
205  96 144\t\tHotPink3
139  58  98\t\tHotPink4
255 181 197\t\tpink1
238 169 184\t\tpink2
205 145 158\t\tpink3
139  99 108\t\tpink4
255 174 185\t\tLightPink1
238 162 173\t\tLightPink2
205 140 149\t\tLightPink3
139  95 101\t\tLightPink4
255 130 171\t\tPaleVioletRed1
238 121 159\t\tPaleVioletRed2
205 104 137\t\tPaleVioletRed3
139  71\t 93\t\tPaleVioletRed4
255  52 179\t\tmaroon1
238  48 167\t\tmaroon2
205  41 144\t\tmaroon3
139  28\t 98\t\tmaroon4
255  62 150\t\tVioletRed1
238  58 140\t\tVioletRed2
205  50 120\t\tVioletRed3
139  34\t 82\t\tVioletRed4
255   0 255\t\tmagenta1
238   0 238\t\tmagenta2
205   0 205\t\tmagenta3
139   0 139\t\tmagenta4
255 131 250\t\torchid1
238 122 233\t\torchid2
205 105 201\t\torchid3
139  71 137\t\torchid4
255 187 255\t\tplum1
238 174 238\t\tplum2
205 150 205\t\tplum3
139 102 139\t\tplum4
224 102 255\t\tMediumOrchid1
209  95 238\t\tMediumOrchid2
180  82 205\t\tMediumOrchid3
122  55 139\t\tMediumOrchid4
191  62 255\t\tDarkOrchid1
178  58 238\t\tDarkOrchid2
154  50 205\t\tDarkOrchid3
104  34 139\t\tDarkOrchid4
155  48 255\t\tpurple1
145  44 238\t\tpurple2
125  38 205\t\tpurple3
 85  26 139\t\tpurple4
171 130 255\t\tMediumPurple1
159 121 238\t\tMediumPurple2
137 104 205\t\tMediumPurple3
 93  71 139\t\tMediumPurple4
255 225 255\t\tthistle1
238 210 238\t\tthistle2
205 181 205\t\tthistle3
139 123 139\t\tthistle4
  0   0   0\t\tgray0
  0   0   0\t\tgrey0
  3   3   3\t\tgray1
  3   3   3\t\tgrey1
  5   5   5\t\tgray2
  5   5   5\t\tgrey2
  8   8   8\t\tgray3
  8   8   8\t\tgrey3
 10  10  10 \t\tgray4
 10  10  10 \t\tgrey4
 13  13  13 \t\tgray5
 13  13  13 \t\tgrey5
 15  15  15 \t\tgray6
 15  15  15 \t\tgrey6
 18  18  18 \t\tgray7
 18  18  18 \t\tgrey7
 20  20  20 \t\tgray8
 20  20  20 \t\tgrey8
 23  23  23 \t\tgray9
 23  23  23 \t\tgrey9
 26  26  26 \t\tgray10
 26  26  26 \t\tgrey10
 28  28  28 \t\tgray11
 28  28  28 \t\tgrey11
 31  31  31 \t\tgray12
 31  31  31 \t\tgrey12
 33  33  33 \t\tgray13
 33  33  33 \t\tgrey13
 36  36  36 \t\tgray14
 36  36  36 \t\tgrey14
 38  38  38 \t\tgray15
 38  38  38 \t\tgrey15
 41  41  41 \t\tgray16
 41  41  41 \t\tgrey16
 43  43  43 \t\tgray17
 43  43  43 \t\tgrey17
 46  46  46 \t\tgray18
 46  46  46 \t\tgrey18
 48  48  48 \t\tgray19
 48  48  48 \t\tgrey19
 51  51  51 \t\tgray20
 51  51  51 \t\tgrey20
 54  54  54 \t\tgray21
 54  54  54 \t\tgrey21
 56  56  56 \t\tgray22
 56  56  56 \t\tgrey22
 59  59  59 \t\tgray23
 59  59  59 \t\tgrey23
 61  61  61 \t\tgray24
 61  61  61 \t\tgrey24
 64  64  64 \t\tgray25
 64  64  64 \t\tgrey25
 66  66  66 \t\tgray26
 66  66  66 \t\tgrey26
 69  69  69 \t\tgray27
 69  69  69 \t\tgrey27
 71  71  71 \t\tgray28
 71  71  71 \t\tgrey28
 74  74  74 \t\tgray29
 74  74  74 \t\tgrey29
 77  77  77 \t\tgray30
 77  77  77 \t\tgrey30
 79  79  79 \t\tgray31
 79  79  79 \t\tgrey31
 82  82  82 \t\tgray32
 82  82  82 \t\tgrey32
 84  84  84 \t\tgray33
 84  84  84 \t\tgrey33
 87  87  87 \t\tgray34
 87  87  87 \t\tgrey34
 89  89  89 \t\tgray35
 89  89  89 \t\tgrey35
 92  92  92 \t\tgray36
 92  92  92 \t\tgrey36
 94  94  94 \t\tgray37
 94  94  94 \t\tgrey37
 97  97  97 \t\tgray38
 97  97  97 \t\tgrey38
 99  99  99 \t\tgray39
 99  99  99 \t\tgrey39
102 102 102 \t\tgray40
102 102 102 \t\tgrey40
105 105 105 \t\tgray41
105 105 105 \t\tgrey41
107 107 107 \t\tgray42
107 107 107 \t\tgrey42
110 110 110 \t\tgray43
110 110 110 \t\tgrey43
112 112 112 \t\tgray44
112 112 112 \t\tgrey44
115 115 115 \t\tgray45
115 115 115 \t\tgrey45
117 117 117 \t\tgray46
117 117 117 \t\tgrey46
120 120 120 \t\tgray47
120 120 120 \t\tgrey47
122 122 122 \t\tgray48
122 122 122 \t\tgrey48
125 125 125 \t\tgray49
125 125 125 \t\tgrey49
127 127 127 \t\tgray50
127 127 127 \t\tgrey50
130 130 130 \t\tgray51
130 130 130 \t\tgrey51
133 133 133 \t\tgray52
133 133 133 \t\tgrey52
135 135 135 \t\tgray53
135 135 135 \t\tgrey53
138 138 138 \t\tgray54
138 138 138 \t\tgrey54
140 140 140 \t\tgray55
140 140 140 \t\tgrey55
143 143 143 \t\tgray56
143 143 143 \t\tgrey56
145 145 145 \t\tgray57
145 145 145 \t\tgrey57
148 148 148 \t\tgray58
148 148 148 \t\tgrey58
150 150 150 \t\tgray59
150 150 150 \t\tgrey59
153 153 153 \t\tgray60
153 153 153 \t\tgrey60
156 156 156 \t\tgray61
156 156 156 \t\tgrey61
158 158 158 \t\tgray62
158 158 158 \t\tgrey62
161 161 161 \t\tgray63
161 161 161 \t\tgrey63
163 163 163 \t\tgray64
163 163 163 \t\tgrey64
166 166 166 \t\tgray65
166 166 166 \t\tgrey65
168 168 168 \t\tgray66
168 168 168 \t\tgrey66
171 171 171 \t\tgray67
171 171 171 \t\tgrey67
173 173 173 \t\tgray68
173 173 173 \t\tgrey68
176 176 176 \t\tgray69
176 176 176 \t\tgrey69
179 179 179 \t\tgray70
179 179 179 \t\tgrey70
181 181 181 \t\tgray71
181 181 181 \t\tgrey71
184 184 184 \t\tgray72
184 184 184 \t\tgrey72
186 186 186 \t\tgray73
186 186 186 \t\tgrey73
189 189 189 \t\tgray74
189 189 189 \t\tgrey74
191 191 191 \t\tgray75
191 191 191 \t\tgrey75
194 194 194 \t\tgray76
194 194 194 \t\tgrey76
196 196 196 \t\tgray77
196 196 196 \t\tgrey77
199 199 199 \t\tgray78
199 199 199 \t\tgrey78
201 201 201 \t\tgray79
201 201 201 \t\tgrey79
204 204 204 \t\tgray80
204 204 204 \t\tgrey80
207 207 207 \t\tgray81
207 207 207 \t\tgrey81
209 209 209 \t\tgray82
209 209 209 \t\tgrey82
212 212 212 \t\tgray83
212 212 212 \t\tgrey83
214 214 214 \t\tgray84
214 214 214 \t\tgrey84
217 217 217 \t\tgray85
217 217 217 \t\tgrey85
219 219 219 \t\tgray86
219 219 219 \t\tgrey86
222 222 222 \t\tgray87
222 222 222 \t\tgrey87
224 224 224 \t\tgray88
224 224 224 \t\tgrey88
227 227 227 \t\tgray89
227 227 227 \t\tgrey89
229 229 229 \t\tgray90
229 229 229 \t\tgrey90
232 232 232 \t\tgray91
232 232 232 \t\tgrey91
235 235 235 \t\tgray92
235 235 235 \t\tgrey92
237 237 237 \t\tgray93
237 237 237 \t\tgrey93
240 240 240 \t\tgray94
240 240 240 \t\tgrey94
242 242 242 \t\tgray95
242 242 242 \t\tgrey95
245 245 245 \t\tgray96
245 245 245 \t\tgrey96
247 247 247 \t\tgray97
247 247 247 \t\tgrey97
250 250 250 \t\tgray98
250 250 250 \t\tgrey98
252 252 252 \t\tgray99
252 252 252 \t\tgrey99
255 255 255 \t\tgray100
255 255 255 \t\tgrey100
169 169 169\t\tdark grey
169 169 169\t\tDarkGrey
169 169 169\t\tdark gray
169 169 169\t\tDarkGray
0     0 139\t\tdark blue
0     0 139\t\tDarkBlue
0   139 139\t\tdark cyan
0   139 139\t\tDarkCyan
139   0 139\t\tdark magenta
139   0 139\t\tDarkMagenta
139   0   0\t\tdark red
139   0   0\t\tDarkRed
144 238 144\t\tlight green
144 238 144\t\tLightGreen"
}

} // verus!
